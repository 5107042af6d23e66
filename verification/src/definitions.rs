//! The events that the parser emits, and the values they carry.

use vstd::prelude::*;

verus! {

/// A terminal mode that a private-mode sequence sets or resets.
#[derive(Clone, Debug, PartialEq, Eq)]
pub enum Mode {
    /// Cursor keys send application sequences.
    Decckm,
    /// Pasted text is bracketed by marker sequences.
    BracketedPaste,
    /// Modified keys are reported in the extended form.
    ModifyOtherKeys,
    /// A mode that has no variant of its own, by its raw bytes.
    Unknown(Vec<u8>),
}

/// The mathematical value of a [`Mode`].
pub enum ModeView {
    Decckm,
    BracketedPaste,
    ModifyOtherKeys,
    Unknown(Seq<u8>),
}

impl View for Mode {
    type V = ModeView;

    open spec fn view(&self) -> ModeView {
        match self {
            Mode::Decckm => ModeView::Decckm,
            Mode::BracketedPaste => ModeView::BracketedPaste,
            Mode::ModifyOtherKeys => ModeView::ModifyOtherKeys,
            Mode::Unknown(bytes) => ModeView::Unknown(bytes@),
        }
    }
}

/// One graphic-rendition attribute of a `CSI ... m` sequence.
#[derive(Clone, Copy, Debug, PartialEq, Eq, Structural)]
pub enum SelectGraphicRendition {
    Reset,
    Bold,
    Faint,
    Italic,
    Underline,
    BlinkSlow,
    BlinkRapid,
    Reverse,
    Conceal,
    Reveal,
    NotItalic,
    NotUnderline,
    NormalIntensity,
    ForegroundDefault,
    BackgroundDefault,
    ForegroundBlack,
    ForegroundRed,
    ForegroundGreen,
    ForegroundYellow,
    ForegroundBlue,
    ForegroundMagenta,
    ForegroundCyan,
    ForegroundWhite,
    ForegroundBrightBlack,
    ForegroundBrightRed,
    ForegroundBrightGreen,
    ForegroundBrightYellow,
    ForegroundBrightBlue,
    ForegroundBrightMagenta,
    ForegroundBrightCyan,
    ForegroundBrightWhite,
    Foreground8Bit(u8),
    ForegroundTrueColor(u8, u8, u8),
    BackgroundBlack,
    BackgroundRed,
    BackgroundGreen,
    BackgroundYellow,
    BackgroundBlue,
    BackgroundMagenta,
    BackgroundCyan,
    BackgroundWhite,
    BackgroundBrightBlack,
    BackgroundBrightRed,
    BackgroundBrightGreen,
    BackgroundBrightYellow,
    BackgroundBrightBlue,
    BackgroundBrightMagenta,
    BackgroundBrightCyan,
    BackgroundBrightWhite,
    Background8Bit(u8),
    BackgroundTrueColor(u8, u8, u8),
    Unknown(usize),
}

impl SelectGraphicRendition {
    /// The attribute that a single numeric code selects. Codes that select
    /// nothing on their own, 38 and 48 among them, give `Unknown` with the code.
    pub open spec fn of_code(code: usize) -> SelectGraphicRendition {
        if code == 0 {
            SelectGraphicRendition::Reset
        } else if code == 1 {
            SelectGraphicRendition::Bold
        } else if code == 2 {
            SelectGraphicRendition::Faint
        } else if code == 3 {
            SelectGraphicRendition::Italic
        } else if code == 4 {
            SelectGraphicRendition::Underline
        } else if code == 5 {
            SelectGraphicRendition::BlinkSlow
        } else if code == 6 {
            SelectGraphicRendition::BlinkRapid
        } else if code == 7 {
            SelectGraphicRendition::Reverse
        } else if code == 8 {
            SelectGraphicRendition::Conceal
        } else if code == 22 {
            SelectGraphicRendition::NormalIntensity
        } else if code == 23 {
            SelectGraphicRendition::NotItalic
        } else if code == 24 {
            SelectGraphicRendition::NotUnderline
        } else if code == 28 {
            SelectGraphicRendition::Reveal
        } else if code == 30 {
            SelectGraphicRendition::ForegroundBlack
        } else if code == 31 {
            SelectGraphicRendition::ForegroundRed
        } else if code == 32 {
            SelectGraphicRendition::ForegroundGreen
        } else if code == 33 {
            SelectGraphicRendition::ForegroundYellow
        } else if code == 34 {
            SelectGraphicRendition::ForegroundBlue
        } else if code == 35 {
            SelectGraphicRendition::ForegroundMagenta
        } else if code == 36 {
            SelectGraphicRendition::ForegroundCyan
        } else if code == 37 {
            SelectGraphicRendition::ForegroundWhite
        } else if code == 39 {
            SelectGraphicRendition::ForegroundDefault
        } else if code == 40 {
            SelectGraphicRendition::BackgroundBlack
        } else if code == 41 {
            SelectGraphicRendition::BackgroundRed
        } else if code == 42 {
            SelectGraphicRendition::BackgroundGreen
        } else if code == 43 {
            SelectGraphicRendition::BackgroundYellow
        } else if code == 44 {
            SelectGraphicRendition::BackgroundBlue
        } else if code == 45 {
            SelectGraphicRendition::BackgroundMagenta
        } else if code == 46 {
            SelectGraphicRendition::BackgroundCyan
        } else if code == 47 {
            SelectGraphicRendition::BackgroundWhite
        } else if code == 49 {
            SelectGraphicRendition::BackgroundDefault
        } else if code == 90 {
            SelectGraphicRendition::ForegroundBrightBlack
        } else if code == 91 {
            SelectGraphicRendition::ForegroundBrightRed
        } else if code == 92 {
            SelectGraphicRendition::ForegroundBrightGreen
        } else if code == 93 {
            SelectGraphicRendition::ForegroundBrightYellow
        } else if code == 94 {
            SelectGraphicRendition::ForegroundBrightBlue
        } else if code == 95 {
            SelectGraphicRendition::ForegroundBrightMagenta
        } else if code == 96 {
            SelectGraphicRendition::ForegroundBrightCyan
        } else if code == 97 {
            SelectGraphicRendition::ForegroundBrightWhite
        } else if code == 100 {
            SelectGraphicRendition::BackgroundBrightBlack
        } else if code == 101 {
            SelectGraphicRendition::BackgroundBrightRed
        } else if code == 102 {
            SelectGraphicRendition::BackgroundBrightGreen
        } else if code == 103 {
            SelectGraphicRendition::BackgroundBrightYellow
        } else if code == 104 {
            SelectGraphicRendition::BackgroundBrightBlue
        } else if code == 105 {
            SelectGraphicRendition::BackgroundBrightMagenta
        } else if code == 106 {
            SelectGraphicRendition::BackgroundBrightCyan
        } else if code == 107 {
            SelectGraphicRendition::BackgroundBrightWhite
        } else {
            SelectGraphicRendition::Unknown(code)
        }
    }

    /// Converts a basic numeric code to its attribute.
    pub fn from_usize(val: usize) -> (sgr: SelectGraphicRendition)
        ensures
            sgr == SelectGraphicRendition::of_code(val),
    {
        match val {
            0 => SelectGraphicRendition::Reset,
            1 => SelectGraphicRendition::Bold,
            2 => SelectGraphicRendition::Faint,
            3 => SelectGraphicRendition::Italic,
            4 => SelectGraphicRendition::Underline,
            5 => SelectGraphicRendition::BlinkSlow,
            6 => SelectGraphicRendition::BlinkRapid,
            7 => SelectGraphicRendition::Reverse,
            8 => SelectGraphicRendition::Conceal,
            22 => SelectGraphicRendition::NormalIntensity,
            23 => SelectGraphicRendition::NotItalic,
            24 => SelectGraphicRendition::NotUnderline,
            28 => SelectGraphicRendition::Reveal,
            30 => SelectGraphicRendition::ForegroundBlack,
            31 => SelectGraphicRendition::ForegroundRed,
            32 => SelectGraphicRendition::ForegroundGreen,
            33 => SelectGraphicRendition::ForegroundYellow,
            34 => SelectGraphicRendition::ForegroundBlue,
            35 => SelectGraphicRendition::ForegroundMagenta,
            36 => SelectGraphicRendition::ForegroundCyan,
            37 => SelectGraphicRendition::ForegroundWhite,
            39 => SelectGraphicRendition::ForegroundDefault,
            40 => SelectGraphicRendition::BackgroundBlack,
            41 => SelectGraphicRendition::BackgroundRed,
            42 => SelectGraphicRendition::BackgroundGreen,
            43 => SelectGraphicRendition::BackgroundYellow,
            44 => SelectGraphicRendition::BackgroundBlue,
            45 => SelectGraphicRendition::BackgroundMagenta,
            46 => SelectGraphicRendition::BackgroundCyan,
            47 => SelectGraphicRendition::BackgroundWhite,
            49 => SelectGraphicRendition::BackgroundDefault,
            90 => SelectGraphicRendition::ForegroundBrightBlack,
            91 => SelectGraphicRendition::ForegroundBrightRed,
            92 => SelectGraphicRendition::ForegroundBrightGreen,
            93 => SelectGraphicRendition::ForegroundBrightYellow,
            94 => SelectGraphicRendition::ForegroundBrightBlue,
            95 => SelectGraphicRendition::ForegroundBrightMagenta,
            96 => SelectGraphicRendition::ForegroundBrightCyan,
            97 => SelectGraphicRendition::ForegroundBrightWhite,
            100 => SelectGraphicRendition::BackgroundBrightBlack,
            101 => SelectGraphicRendition::BackgroundBrightRed,
            102 => SelectGraphicRendition::BackgroundBrightGreen,
            103 => SelectGraphicRendition::BackgroundBrightYellow,
            104 => SelectGraphicRendition::BackgroundBrightBlue,
            105 => SelectGraphicRendition::BackgroundBrightMagenta,
            106 => SelectGraphicRendition::BackgroundBrightCyan,
            107 => SelectGraphicRendition::BackgroundBrightWhite,
            _ => SelectGraphicRendition::Unknown(val),
        }
    }
}

/// The shape of the cursor.
#[derive(Clone, Copy, Debug, PartialEq, Eq, Structural)]
pub enum CursorShape {
    Block,
    Underline,
    Beam,
}

/// One of the four slots that a character set can be designated to.
#[derive(Clone, Copy, Debug, PartialEq, Eq, Structural)]
pub enum CharsetIndex {
    G0,
    G1,
    G2,
    G3,
}

impl CharsetIndex {
    /// The position of the slot, from 0 for `G0` to 3 for `G3`.
    pub open spec fn slot(self) -> int {
        match self {
            CharsetIndex::G0 => 0,
            CharsetIndex::G1 => 1,
            CharsetIndex::G2 => 2,
            CharsetIndex::G3 => 3,
        }
    }

    /// Computes the position of the slot.
    pub fn index(self) -> (i: usize)
        ensures
            i == self.slot(),
    {
        match self {
            CharsetIndex::G0 => 0,
            CharsetIndex::G1 => 1,
            CharsetIndex::G2 => 2,
            CharsetIndex::G3 => 3,
        }
    }
}

/// A character set that translates printable characters.
#[derive(Clone, Copy, Debug, PartialEq, Eq, Structural)]
pub enum StandardCharset {
    /// Every character stands for itself.
    Ascii,
    /// The DEC special graphics set: the characters from `` ` `` to `~` stand
    /// for line-drawing glyphs.
    SpecialCharacterAndLineDrawing,
}

/// The glyph that the DEC special graphics set shows for a character: a
/// replacement for each of the 31 characters from `` ` `` to `~`, the
/// character itself everywhere else.
pub open spec fn line_drawing_glyph(c: char) -> char {
    if c as u32 == 0x60 {
        '\u{25C6}'
    } else if c as u32 == 0x61 {
        '\u{2592}'
    } else if c as u32 == 0x62 {
        '\u{2409}'
    } else if c as u32 == 0x63 {
        '\u{240C}'
    } else if c as u32 == 0x64 {
        '\u{240D}'
    } else if c as u32 == 0x65 {
        '\u{240A}'
    } else if c as u32 == 0x66 {
        '\u{00B0}'
    } else if c as u32 == 0x67 {
        '\u{00B1}'
    } else if c as u32 == 0x68 {
        '\u{2424}'
    } else if c as u32 == 0x69 {
        '\u{240B}'
    } else if c as u32 == 0x6A {
        '\u{2518}'
    } else if c as u32 == 0x6B {
        '\u{2510}'
    } else if c as u32 == 0x6C {
        '\u{250C}'
    } else if c as u32 == 0x6D {
        '\u{2514}'
    } else if c as u32 == 0x6E {
        '\u{253C}'
    } else if c as u32 == 0x6F {
        '\u{23BA}'
    } else if c as u32 == 0x70 {
        '\u{23BB}'
    } else if c as u32 == 0x71 {
        '\u{2500}'
    } else if c as u32 == 0x72 {
        '\u{23BC}'
    } else if c as u32 == 0x73 {
        '\u{23BD}'
    } else if c as u32 == 0x74 {
        '\u{251C}'
    } else if c as u32 == 0x75 {
        '\u{2524}'
    } else if c as u32 == 0x76 {
        '\u{2534}'
    } else if c as u32 == 0x77 {
        '\u{252C}'
    } else if c as u32 == 0x78 {
        '\u{2502}'
    } else if c as u32 == 0x79 {
        '\u{2264}'
    } else if c as u32 == 0x7A {
        '\u{2265}'
    } else if c as u32 == 0x7B {
        '\u{03C0}'
    } else if c as u32 == 0x7C {
        '\u{2260}'
    } else if c as u32 == 0x7D {
        '\u{00A3}'
    } else if c as u32 == 0x7E {
        '\u{00B7}'
    } else {
        c
    }
}

/// Computes the glyph of the DEC special graphics set for a character.
pub fn line_drawing(c: char) -> (glyph: char)
    ensures
        glyph == line_drawing_glyph(c),
{
    let code: u32 = c as u32;
    match code {
        0x60 => '\u{25C6}',
        0x61 => '\u{2592}',
        0x62 => '\u{2409}',
        0x63 => '\u{240C}',
        0x64 => '\u{240D}',
        0x65 => '\u{240A}',
        0x66 => '\u{00B0}',
        0x67 => '\u{00B1}',
        0x68 => '\u{2424}',
        0x69 => '\u{240B}',
        0x6A => '\u{2518}',
        0x6B => '\u{2510}',
        0x6C => '\u{250C}',
        0x6D => '\u{2514}',
        0x6E => '\u{253C}',
        0x6F => '\u{23BA}',
        0x70 => '\u{23BB}',
        0x71 => '\u{2500}',
        0x72 => '\u{23BC}',
        0x73 => '\u{23BD}',
        0x74 => '\u{251C}',
        0x75 => '\u{2524}',
        0x76 => '\u{2534}',
        0x77 => '\u{252C}',
        0x78 => '\u{2502}',
        0x79 => '\u{2264}',
        0x7A => '\u{2265}',
        0x7B => '\u{03C0}',
        0x7C => '\u{2260}',
        0x7D => '\u{00A3}',
        0x7E => '\u{00B7}',
        _ => c,
    }
}

impl StandardCharset {
    /// The character that this set shows for `c`.
    pub open spec fn translate(self, c: char) -> char {
        match self {
            StandardCharset::Ascii => c,
            StandardCharset::SpecialCharacterAndLineDrawing => line_drawing_glyph(c),
        }
    }

    /// Translates a character through this set.
    pub fn map(self, c: char) -> (mapped: char)
        ensures
            mapped == self.translate(c),
    {
        match self {
            StandardCharset::Ascii => c,
            StandardCharset::SpecialCharacterAndLineDrawing => line_drawing(c),
        }
    }
}

/// One event in the stream that the parser produces.
#[derive(Debug, PartialEq, Eq)]
pub enum TerminalOutput {
    /// A run of printable bytes.
    Data(Vec<u8>),
    /// An operating system command: its number and the bytes after the first `;`.
    Osc { command: usize, payload: Vec<u8> },
    /// A device control string. `data` begins with the final byte of the header.
    DeviceControlString { params: Vec<usize>, intermediates: Vec<u8>, data: Vec<u8> },
    /// Coordinates count from 1.
    SetCursorPos { x: Option<usize>, y: Option<usize> },
    CursorUp(usize),
    CursorDown(usize),
    CursorForward(usize),
    CursorBackward(usize),
    ClearForwards,
    ClearAll,
    ClearLineForwards,
    Delete(usize),
    InsertSpaces(usize),
    Backspace,
    Newline,
    CarriageReturn,
    Sgr(SelectGraphicRendition),
    SetCursorVisibility(bool),
    SetMode(Mode),
    ResetMode(Mode),
    EnterAltScreen,
    ExitAltScreen,
    SetCursorStyle { shape: CursorShape, blinking: bool },
    SetActiveCharset(CharsetIndex),
    ConfigureCharset { index: CharsetIndex, charset: StandardCharset },
    SetHyperlink { id: Option<String>, uri: String },
    ClearHyperlink,
    SetScrollingRegion { top: usize, bottom: Option<usize> },
    BeginSynchronizedUpdate,
    EndSynchronizedUpdate,
    /// One of the device controls DC1 to DC4, by its byte.
    DeviceControl { code: u8 },
    Invalid,
}

/// The mathematical value of a [`TerminalOutput`]: the same event with
/// sequences in place of vectors and strings.
pub enum Event {
    Data(Seq<u8>),
    Osc { command: usize, payload: Seq<u8> },
    DeviceControlString { params: Seq<usize>, intermediates: Seq<u8>, data: Seq<u8> },
    SetCursorPos { x: Option<usize>, y: Option<usize> },
    CursorUp(usize),
    CursorDown(usize),
    CursorForward(usize),
    CursorBackward(usize),
    ClearForwards,
    ClearAll,
    ClearLineForwards,
    Delete(usize),
    InsertSpaces(usize),
    Backspace,
    Newline,
    CarriageReturn,
    Sgr(SelectGraphicRendition),
    SetCursorVisibility(bool),
    SetMode(ModeView),
    ResetMode(ModeView),
    EnterAltScreen,
    ExitAltScreen,
    SetCursorStyle { shape: CursorShape, blinking: bool },
    SetActiveCharset(CharsetIndex),
    ConfigureCharset { index: CharsetIndex, charset: StandardCharset },
    SetHyperlink { id: Option<Seq<char>>, uri: Seq<char> },
    ClearHyperlink,
    SetScrollingRegion { top: usize, bottom: Option<usize> },
    BeginSynchronizedUpdate,
    EndSynchronizedUpdate,
    DeviceControl { code: u8 },
    Invalid,
}

impl View for TerminalOutput {
    type V = Event;

    open spec fn view(&self) -> Event {
        match self {
            TerminalOutput::Data(bytes) => Event::Data(bytes@),
            TerminalOutput::Osc { command, payload } => Event::Osc {
                command: *command,
                payload: payload@,
            },
            TerminalOutput::DeviceControlString {
                params,
                intermediates,
                data,
            } => Event::DeviceControlString {
                params: params@,
                intermediates: intermediates@,
                data: data@,
            },
            TerminalOutput::SetCursorPos { x, y } => Event::SetCursorPos { x: *x, y: *y },
            TerminalOutput::CursorUp(n) => Event::CursorUp(*n),
            TerminalOutput::CursorDown(n) => Event::CursorDown(*n),
            TerminalOutput::CursorForward(n) => Event::CursorForward(*n),
            TerminalOutput::CursorBackward(n) => Event::CursorBackward(*n),
            TerminalOutput::ClearForwards => Event::ClearForwards,
            TerminalOutput::ClearAll => Event::ClearAll,
            TerminalOutput::ClearLineForwards => Event::ClearLineForwards,
            TerminalOutput::Delete(n) => Event::Delete(*n),
            TerminalOutput::InsertSpaces(n) => Event::InsertSpaces(*n),
            TerminalOutput::Backspace => Event::Backspace,
            TerminalOutput::Newline => Event::Newline,
            TerminalOutput::CarriageReturn => Event::CarriageReturn,
            TerminalOutput::Sgr(sgr) => Event::Sgr(*sgr),
            TerminalOutput::SetCursorVisibility(visible) => Event::SetCursorVisibility(*visible),
            TerminalOutput::SetMode(mode) => Event::SetMode(mode@),
            TerminalOutput::ResetMode(mode) => Event::ResetMode(mode@),
            TerminalOutput::EnterAltScreen => Event::EnterAltScreen,
            TerminalOutput::ExitAltScreen => Event::ExitAltScreen,
            TerminalOutput::SetCursorStyle { shape, blinking } => Event::SetCursorStyle {
                shape: *shape,
                blinking: *blinking,
            },
            TerminalOutput::SetActiveCharset(index) => Event::SetActiveCharset(*index),
            TerminalOutput::ConfigureCharset { index, charset } => Event::ConfigureCharset {
                index: *index,
                charset: *charset,
            },
            TerminalOutput::SetHyperlink { id, uri } => Event::SetHyperlink {
                id: match id {
                    Some(text) => Some(text@),
                    None => None,
                },
                uri: uri@,
            },
            TerminalOutput::ClearHyperlink => Event::ClearHyperlink,
            TerminalOutput::SetScrollingRegion { top, bottom } => Event::SetScrollingRegion {
                top: *top,
                bottom: *bottom,
            },
            TerminalOutput::BeginSynchronizedUpdate => Event::BeginSynchronizedUpdate,
            TerminalOutput::EndSynchronizedUpdate => Event::EndSynchronizedUpdate,
            TerminalOutput::DeviceControl { code } => Event::DeviceControl { code: *code },
            TerminalOutput::Invalid => Event::Invalid,
        }
    }
}

/// The mathematical value of a sequence of events.
pub open spec fn events_of(outputs: Seq<TerminalOutput>) -> Seq<Event> {
    Seq::new(outputs.len(), |i: int| outputs[i]@)
}

/// The formatting that applies to a range of text.
#[derive(Clone, Debug, PartialEq, Eq)]
pub struct FormatTag {
    pub start: usize,
    pub end: usize,
    pub blink: bool,
    pub fg_color: SelectGraphicRendition,
    pub bg_color: SelectGraphicRendition,
    pub bold: bool,
    pub italic: bool,
    pub url: Option<String>,
}

} // verus!
