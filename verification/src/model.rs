//! The mathematical model of the parser.
//!
//! A [`Machine`] is the state machine with its buffers and character sets. It
//! reads bytes and produces events, and knows nothing of synchronized updates.
//! A [`Sink`] takes the produced events in order and decides which of them are
//! delivered at once and which wait for the end of a synchronized update. A
//! [`ParserModel`] is a machine together with the waiting events.

use vstd::prelude::*;
use vstd::utf8::{decode_utf8, encode_scalar, valid_utf8};
use crate::definitions::{
    CharsetIndex, CursorShape, Event, ModeView, SelectGraphicRendition, StandardCharset,
};
use crate::tables::{class_of, transition, Action, State};
use crate::text::{decimal_value, is_digit, position, repeated};

verus! {

/// The state machine, its buffers and its character sets.
pub struct Machine {
    pub state: State,
    pub params: Seq<usize>,
    pub current_param: Option<usize>,
    pub intermediates: Seq<u8>,
    pub data_buffer: Seq<u8>,
    pub osc_buffer: Seq<u8>,
    pub dcs_buffer: Seq<u8>,
    pub dcs_params_cache: Seq<usize>,
    pub dcs_intermediates_cache: Seq<u8>,
    pub active_charset: CharsetIndex,
    /// The character sets designated to G0, G1, G2 and G3, in this order.
    pub charsets: Seq<StandardCharset>,
    pub preceding_char: Option<char>,
}

/// A machine after some input, with the events that the input produced.
pub struct Step {
    pub machine: Machine,
    pub events: Seq<Event>,
}

/// Where produced events go: `delivered` is the output so far, `pending` holds
/// the events that wait while `depth`, the number of open synchronized
/// updates, is above zero.
pub struct Sink {
    pub depth: usize,
    pub pending: Seq<Event>,
    pub delivered: Seq<Event>,
}

/// A parser between two calls: the machine, the number of open synchronized
/// updates and the events that wait for them to close.
pub struct ParserModel {
    pub machine: Machine,
    pub sync_depth: usize,
    pub sync_buffer: Seq<Event>,
}

/// What a call that feeds a chunk of bytes leaves behind and returns.
pub struct Pushed {
    pub parser: ParserModel,
    pub events: Seq<Event>,
}

/// The character set that the final byte of a designation names.
pub open spec fn charset_of(byte: u8) -> Option<StandardCharset> {
    if byte == 0x42 {
        Some(StandardCharset::Ascii)
    } else if byte == 0x30 {
        Some(StandardCharset::SpecialCharacterAndLineDrawing)
    } else {
        None
    }
}

/// The slot that the intermediate byte of a designation names: `(` for G0,
/// `)` for G1, `*` for G2 and `+` for G3.
pub open spec fn charset_slot(byte: u8) -> Option<CharsetIndex> {
    if byte == 0x28 {
        Some(CharsetIndex::G0)
    } else if byte == 0x29 {
        Some(CharsetIndex::G1)
    } else if byte == 0x2A {
        Some(CharsetIndex::G2)
    } else if byte == 0x2B {
        Some(CharsetIndex::G3)
    } else {
        None
    }
}

/// The events of a C0 control byte.
pub open spec fn control_events(byte: u8) -> Seq<Event> {
    if byte == 0x08 || byte == 0x7F {
        seq![Event::Backspace]
    } else if 0x0A <= byte <= 0x0C {
        seq![Event::Newline]
    } else if byte == 0x0D {
        seq![Event::CarriageReturn]
    } else if byte == 0x0E {
        seq![Event::SetActiveCharset(CharsetIndex::G1)]
    } else if byte == 0x0F {
        seq![Event::SetActiveCharset(CharsetIndex::G0)]
    } else if 0x11 <= byte <= 0x14 {
        seq![Event::DeviceControl { code: byte }]
    } else {
        Seq::empty()
    }
}

/// The value of a parameter after one more decimal digit: ten times the value
/// plus the digit, or the largest `usize` where that does not fit.
pub open spec fn with_digit(value: usize, digit: u8) -> usize {
    if value * 10 + (digit - 0x30) <= usize::MAX {
        (value * 10 + (digit - 0x30)) as usize
    } else {
        usize::MAX
    }
}

/// The events of a private-mode sequence, `CSI ? p0 h` where `set` holds and
/// `CSI ? p0 l` where it does not.
pub open spec fn private_mode_events(set: bool, p0: usize) -> Seq<Event> {
    if p0 == 25 {
        seq![Event::SetCursorVisibility(set)]
    } else if p0 == 1049 {
        if set {
            seq![Event::EnterAltScreen]
        } else {
            seq![Event::ExitAltScreen]
        }
    } else if p0 == 1 {
        seq![mode_event(set, ModeView::Decckm)]
    } else if p0 == 2004 {
        seq![mode_event(set, ModeView::BracketedPaste)]
    } else if p0 == 1037 {
        seq![mode_event(set, ModeView::ModifyOtherKeys)]
    } else if p0 == 2026 {
        if set {
            seq![Event::BeginSynchronizedUpdate]
        } else {
            seq![Event::EndSynchronizedUpdate]
        }
    } else {
        Seq::empty()
    }
}

/// The event that sets or resets a mode.
pub open spec fn mode_event(set: bool, mode: ModeView) -> Event {
    if set {
        Event::SetMode(mode)
    } else {
        Event::ResetMode(mode)
    }
}

/// The cursor style that `CSI p0 SP q` selects.
pub open spec fn cursor_style(p0: usize) -> Event {
    if p0 == 2 {
        Event::SetCursorStyle { shape: CursorShape::Block, blinking: false }
    } else if p0 == 3 {
        Event::SetCursorStyle { shape: CursorShape::Underline, blinking: true }
    } else if p0 == 4 {
        Event::SetCursorStyle { shape: CursorShape::Underline, blinking: false }
    } else if p0 == 5 {
        Event::SetCursorStyle { shape: CursorShape::Beam, blinking: true }
    } else if p0 == 6 {
        Event::SetCursorStyle { shape: CursorShape::Beam, blinking: false }
    } else {
        Event::SetCursorStyle { shape: CursorShape::Block, blinking: true }
    }
}

/// A parameter as a colour component: its low eight bits.
pub open spec fn component(param: usize) -> u8 {
    (param % 256) as u8
}

/// True where an extended colour with the 8-bit subtype starts at `i`.
pub open spec fn is_indexed_colour(params: Seq<usize>, i: int) -> bool {
    i + 2 < params.len() && params[i + 1] == 5
}

/// True where an extended colour with the 24-bit subtype starts at `i`.
pub open spec fn is_true_colour(params: Seq<usize>, i: int) -> bool {
    i + 4 < params.len() && params[i + 1] == 2
}

/// The attribute that the parameters select at index `i`. Codes 38 and 48
/// open an extended colour; where its subtype or its components are missing
/// the attribute is `Unknown` with the code.
pub open spec fn sgr_at(params: Seq<usize>, i: int) -> SelectGraphicRendition {
    let code = params[i];
    if code == 38 || code == 48 {
        if is_indexed_colour(params, i) {
            if code == 38 {
                SelectGraphicRendition::Foreground8Bit(component(params[i + 2]))
            } else {
                SelectGraphicRendition::Background8Bit(component(params[i + 2]))
            }
        } else if is_true_colour(params, i) {
            if code == 38 {
                SelectGraphicRendition::ForegroundTrueColor(
                    component(params[i + 2]),
                    component(params[i + 3]),
                    component(params[i + 4]),
                )
            } else {
                SelectGraphicRendition::BackgroundTrueColor(
                    component(params[i + 2]),
                    component(params[i + 3]),
                    component(params[i + 4]),
                )
            }
        } else {
            SelectGraphicRendition::Unknown(code)
        }
    } else {
        SelectGraphicRendition::of_code(code)
    }
}

/// The index of the parameter that follows the attribute at index `i`. A
/// complete extended colour takes three or five parameters. One that is cut
/// short takes all that is left where its subtype is 5 or 2, and the code and
/// the subtype otherwise.
pub open spec fn sgr_next(params: Seq<usize>, i: int) -> int {
    let code = params[i];
    if code == 38 || code == 48 {
        if is_indexed_colour(params, i) {
            i + 3
        } else if is_true_colour(params, i) {
            i + 5
        } else if i + 1 < params.len() {
            if params[i + 1] == 5 || params[i + 1] == 2 {
                params.len() as int
            } else {
                i + 2
            }
        } else {
            i + 1
        }
    } else {
        i + 1
    }
}

/// The events of the attributes that the parameters select from index `i` on.
pub open spec fn sgr_events_from(params: Seq<usize>, i: int) -> Seq<Event>
    decreases params.len() - i,
{
    if 0 <= i < params.len() {
        seq![Event::Sgr(sgr_at(params, i))] + sgr_events_from(params, sgr_next(params, i))
    } else {
        Seq::empty()
    }
}

/// The events of `CSI params m`: a reset where there are no parameters, and
/// else one event for each attribute, in the order of the parameters.
pub open spec fn sgr_events(params: Seq<usize>) -> Seq<Event> {
    if params.len() == 0 {
        seq![Event::Sgr(SelectGraphicRendition::Reset)]
    } else {
        sgr_events_from(params, 0)
    }
}

/// True where the bytes begin with `id=`.
pub open spec fn has_id_prefix(segment: Seq<u8>) -> bool {
    segment.len() >= 3 && segment[0] == 0x69 && segment[1] == 0x64 && segment[2] == 0x3D
}

/// The bytes after `id=` in the first of the segments between colons that
/// begins with `id=`.
pub open spec fn id_bytes(params: Seq<u8>) -> Option<Seq<u8>>
    decreases params.len(),
{
    let end = position(params, 0x3A);
    if 0 <= end <= params.len() && has_id_prefix(params.subrange(0, end)) {
        Some(params.subrange(3, end))
    } else if 0 <= end < params.len() {
        id_bytes(params.subrange(end + 1, params.len() as int))
    } else {
        None
    }
}

/// The `id` of a hyperlink: the text after `id=` in its parameters, which must
/// be UTF-8.
pub open spec fn hyperlink_id(params: Seq<u8>) -> Option<Seq<char>> {
    if params.len() > 0 && valid_utf8(params) {
        match id_bytes(params) {
            Some(bytes) => Some(decode_utf8(bytes)),
            None => None,
        }
    } else {
        None
    }
}

/// The events of a hyperlink command with the given payload, `params ; uri`.
/// An empty payload or an empty `uri` clears the hyperlink. A payload without
/// a `;`, or with a `uri` that is not UTF-8, gives no event.
pub open spec fn hyperlink_events(payload: Seq<u8>) -> Seq<Event> {
    let split = position(payload, 0x3B);
    if payload.len() == 0 {
        seq![Event::ClearHyperlink]
    } else if 0 <= split < payload.len() {
        let uri = payload.subrange(split + 1, payload.len() as int);
        if !valid_utf8(uri) {
            Seq::empty()
        } else if uri.len() == 0 {
            seq![Event::ClearHyperlink]
        } else {
            seq![
                Event::SetHyperlink {
                    id: hyperlink_id(payload.subrange(0, split)),
                    uri: decode_utf8(uri),
                },
            ]
        }
    } else {
        Seq::empty()
    }
}

/// The command number that the bytes before the first `;` write: their
/// decimal value, or 0 where they have none.
pub open spec fn osc_command(number: Seq<u8>) -> usize {
    match decimal_value(number) {
        Some(n) => n,
        None => 0,
    }
}

/// The events of an operating system command with the given bytes. The bytes
/// before the first `;` are the command number and the bytes after it the
/// payload. Without a `;` the command is 0 and the payload is all the bytes.
/// Command 8 is a hyperlink; an empty buffer gives no event.
pub open spec fn osc_events(buffer: Seq<u8>) -> Seq<Event> {
    let split = position(buffer, 0x3B);
    if buffer.len() == 0 {
        Seq::empty()
    } else if 0 <= split < buffer.len() {
        let command = osc_command(buffer.subrange(0, split));
        let payload = buffer.subrange(split + 1, buffer.len() as int);
        if command == 8 {
            hyperlink_events(payload)
        } else {
            seq![Event::Osc { command, payload }]
        }
    } else {
        seq![Event::Osc { command: 0, payload: buffer }]
    }
}

impl Machine {
    /// The machine of a new parser: in `Ground`, with empty buffers and ASCII
    /// in all four slots.
    pub open spec fn initial() -> Machine {
        Machine {
            state: State::Ground,
            params: Seq::empty(),
            current_param: None,
            intermediates: Seq::empty(),
            data_buffer: Seq::empty(),
            osc_buffer: Seq::empty(),
            dcs_buffer: Seq::empty(),
            dcs_params_cache: Seq::empty(),
            dcs_intermediates_cache: Seq::empty(),
            active_charset: CharsetIndex::G0,
            charsets: Seq::new(4, |i: int| StandardCharset::Ascii),
            preceding_char: None,
        }
    }

    /// The parameter at `index`, or `default` where there is none.
    pub open spec fn param_or(self, index: int, default: usize) -> usize {
        if 0 <= index < self.params.len() {
            self.params[index]
        } else {
            default
        }
    }

    /// The parameter at `index`, if there is one.
    pub open spec fn param_opt(self, index: int) -> Option<usize> {
        if 0 <= index < self.params.len() {
            Some(self.params[index])
        } else {
            None
        }
    }

    /// A coordinate from the parameter at `index`: at least 1, and 1 where
    /// the parameter is missing.
    pub open spec fn coordinate(self, index: int) -> usize {
        if 0 <= index < self.params.len() && self.params[index] >= 1 {
            self.params[index]
        } else {
            1
        }
    }

    /// The character set that translates printable characters.
    pub open spec fn charset(self) -> StandardCharset {
        self.charsets[self.active_charset.slot()]
    }

    /// The pending printable bytes as an event, if there are any.
    pub open spec fn pending_data(self) -> Seq<Event> {
        if self.data_buffer.len() > 0 {
            seq![Event::Data(self.data_buffer)]
        } else {
            Seq::empty()
        }
    }

    /// The machine without its pending printable bytes.
    pub open spec fn without_data(self) -> Machine {
        Machine { data_buffer: Seq::empty(), ..self }
    }

    /// The machine with the pending printable bytes turned into an event.
    pub open spec fn flushed(self) -> Step {
        Step { machine: self.without_data(), events: self.pending_data() }
    }

    /// The machine without parameters and intermediates.
    pub open spec fn cleared(self) -> Machine {
        Machine {
            params: Seq::empty(),
            current_param: None,
            intermediates: Seq::empty(),
            ..self
        }
    }

    /// The machine after a printable byte. An ASCII byte is translated by the
    /// active character set, stored as UTF-8 and remembered for a repeat; a
    /// byte with the high bit set is stored as it is.
    pub open spec fn printed(self, byte: u8) -> Machine {
        if byte < 0x80 {
            Machine {
                data_buffer: self.data_buffer + encode_scalar(
                    self.charset().translate(byte as char) as u32,
                ),
                preceding_char: Some(byte as char),
                ..self
            }
        } else {
            Machine { data_buffer: self.data_buffer.push(byte), ..self }
        }
    }

    /// The machine after a C0 control byte: shift-out makes G1 the active
    /// slot and shift-in G0.
    pub open spec fn executed(self, byte: u8) -> Machine {
        if byte == 0x0E {
            Machine { active_charset: CharsetIndex::G1, ..self }
        } else if byte == 0x0F {
            Machine { active_charset: CharsetIndex::G0, ..self }
        } else {
            self
        }
    }

    /// The machine after a parameter byte. A `;` closes the current
    /// parameter, with 0 where it has no digit. A digit extends the current
    /// parameter. A `?` is kept among the intermediates, where it marks a
    /// private sequence. The other parameter bytes change nothing.
    pub open spec fn with_param_byte(self, byte: u8) -> Machine {
        if byte == 0x3B {
            Machine {
                params: self.params.push(
                    match self.current_param {
                        Some(p) => p,
                        None => 0,
                    },
                ),
                current_param: None,
                ..self
            }
        } else if is_digit(byte) {
            Machine {
                current_param: Some(
                    with_digit(
                        match self.current_param {
                            Some(p) => p,
                            None => 0,
                        },
                        byte,
                    ),
                ),
                ..self
            }
        } else if byte == 0x3F {
            Machine { intermediates: self.intermediates.push(byte), ..self }
        } else {
            self
        }
    }

    /// The machine with its last parameter closed: the current one where it
    /// has a digit, and else a 0 where earlier parameters exist.
    pub open spec fn with_final_param(self) -> Machine {
        match self.current_param {
            Some(p) => Machine { params: self.params.push(p), ..self },
            None => if self.params.len() > 0 {
                Machine { params: self.params.push(0), ..self }
            } else {
                self
            },
        }
    }

    /// The slot and the character set that `ESC intermediates final`
    /// designates, if it is a designation.
    pub open spec fn designation(self, final_byte: u8) -> Option<(CharsetIndex, StandardCharset)> {
        if self.intermediates.len() > 0 {
            match (charset_slot(self.intermediates[0]), charset_of(final_byte)) {
                (Some(index), Some(charset)) => Some((index, charset)),
                _ => None,
            }
        } else {
            None
        }
    }

    /// The machine after `ESC intermediates final`: a designation changes
    /// the character set of its slot.
    pub open spec fn designated(self, final_byte: u8) -> Machine {
        match self.designation(final_byte) {
            Some((index, charset)) => Machine {
                charsets: self.charsets.update(index.slot(), charset),
                ..self
            },
            None => self,
        }
    }

    /// The events of `ESC intermediates final`.
    pub open spec fn esc_events(self, final_byte: u8) -> Seq<Event> {
        if self.intermediates.len() == 0 {
            if final_byte == 0x44 || final_byte == 0x45 {
                seq![Event::Newline]
            } else if final_byte == 0x4D {
                seq![Event::CursorUp(1)]
            } else {
                Seq::empty()
            }
        } else {
            match self.designation(final_byte) {
                Some((index, charset)) => seq![Event::ConfigureCharset { index, charset }],
                None => Seq::empty(),
            }
        }
    }

    /// The events of `CSI params final` without intermediates.
    pub open spec fn plain_csi_events(self, final_byte: u8) -> Seq<Event> {
        if final_byte == 0x41 {
            seq![Event::CursorUp(self.param_or(0, 1))]
        } else if final_byte == 0x42 {
            seq![Event::CursorDown(self.param_or(0, 1))]
        } else if final_byte == 0x43 {
            seq![Event::CursorForward(self.param_or(0, 1))]
        } else if final_byte == 0x44 {
            seq![Event::CursorBackward(self.param_or(0, 1))]
        } else if final_byte == 0x48 || final_byte == 0x66 {
            seq![Event::SetCursorPos { x: Some(self.coordinate(1)), y: Some(self.coordinate(0)) }]
        } else if final_byte == 0x47 {
            seq![Event::SetCursorPos { x: Some(self.coordinate(0)), y: None }]
        } else if final_byte == 0x4A {
            if self.param_or(0, 0) == 0 {
                seq![Event::ClearForwards]
            } else if self.param_or(0, 0) == 2 || self.param_or(0, 0) == 3 {
                seq![Event::ClearAll]
            } else {
                Seq::empty()
            }
        } else if final_byte == 0x4B {
            if self.param_or(0, 0) == 0 || self.param_or(0, 0) == 2 {
                seq![Event::ClearLineForwards]
            } else if self.param_or(0, 0) == 1 {
                seq![Event::Backspace]
            } else {
                Seq::empty()
            }
        } else if final_byte == 0x50 {
            seq![Event::Delete(self.param_or(0, 1))]
        } else if final_byte == 0x40 {
            seq![Event::InsertSpaces(self.param_or(0, 1))]
        } else if final_byte == 0x6D {
            sgr_events(self.params)
        } else if final_byte == 0x62 {
            match self.preceding_char {
                Some(c) => seq![
                    Event::Data(repeated(encode_scalar(c as u32), self.param_or(0, 1) as nat)),
                ],
                None => Seq::empty(),
            }
        } else if final_byte == 0x72 {
            seq![Event::SetScrollingRegion { top: self.param_or(0, 1), bottom: self.param_opt(1) }]
        } else {
            Seq::empty()
        }
    }

    /// The events of `CSI params intermediates final`, once the last
    /// parameter is closed. A leading `?` makes the sequence private, and
    /// only `h` and `l` mean something then. A leading space means something
    /// with `q` alone. Other intermediates give no event.
    pub open spec fn csi_events(self, final_byte: u8) -> Seq<Event> {
        if self.intermediates.len() == 0 {
            self.plain_csi_events(final_byte)
        } else if self.intermediates[0] == 0x3F {
            if final_byte == 0x68 {
                private_mode_events(true, self.param_or(0, 0))
            } else if final_byte == 0x6C {
                private_mode_events(false, self.param_or(0, 0))
            } else {
                Seq::empty()
            }
        } else if self.intermediates[0] == 0x20 && final_byte == 0x71 {
            seq![cursor_style(self.param_or(0, 0))]
        } else {
            Seq::empty()
        }
    }

    /// The machine at the start of a device control string whose header
    /// ends with `final_byte`: parameters and intermediates are kept aside
    /// and the data begins with the final byte.
    pub open spec fn hooked(self, final_byte: u8) -> Machine {
        Machine {
            dcs_params_cache: self.params,
            dcs_intermediates_cache: self.intermediates,
            dcs_buffer: seq![final_byte],
            ..self
        }
    }

    /// The event of a device control string that ends.
    pub open spec fn dcs_event(self) -> Event {
        Event::DeviceControlString {
            params: self.dcs_params_cache,
            intermediates: self.dcs_intermediates_cache,
            data: self.dcs_buffer,
        }
    }

    /// The machine after a device control string ended.
    pub open spec fn unhooked(self) -> Machine {
        Machine {
            dcs_params_cache: Seq::empty(),
            dcs_intermediates_cache: Seq::empty(),
            dcs_buffer: Seq::empty(),
            ..self
        }
    }

    /// What an action does with a byte. The actions that produce events
    /// or clear the parameters first turn the pending printable bytes into
    /// an event, so that the event stream keeps the order of the input.
    pub open spec fn perform(self, action: Action, byte: u8) -> Step {
        match action {
            Action::Pass | Action::Ignore => Step { machine: self, events: Seq::empty() },
            Action::Print => Step { machine: self.printed(byte), events: Seq::empty() },
            Action::Execute => Step {
                machine: self.without_data().executed(byte),
                events: self.pending_data() + control_events(byte),
            },
            Action::Clear => Step {
                machine: self.without_data().cleared(),
                events: self.pending_data(),
            },
            Action::Collect => Step {
                machine: Machine { intermediates: self.intermediates.push(byte), ..self },
                events: Seq::empty(),
            },
            Action::Param => Step { machine: self.with_param_byte(byte), events: Seq::empty() },
            Action::EscDispatch => Step {
                machine: self.without_data().designated(byte).cleared(),
                events: self.pending_data() + self.esc_events(byte),
            },
            Action::CsiDispatch => Step {
                machine: self.without_data().cleared(),
                events: self.pending_data() + self.with_final_param().csi_events(byte),
            },
            Action::Hook => Step {
                machine: self.without_data().with_final_param().hooked(byte),
                events: self.pending_data(),
            },
            Action::Put => Step {
                machine: Machine { dcs_buffer: self.dcs_buffer.push(byte), ..self },
                events: Seq::empty(),
            },
            Action::Unhook => Step { machine: self.unhooked(), events: seq![self.dcs_event()] },
            Action::OscStart => Step {
                machine: Machine { osc_buffer: Seq::empty(), ..self.without_data() },
                events: self.pending_data(),
            },
            Action::OscPut => Step {
                machine: Machine { osc_buffer: self.osc_buffer.push(byte), ..self },
                events: Seq::empty(),
            },
            Action::OscEnd => Step {
                machine: Machine { osc_buffer: Seq::empty(), ..self },
                events: osc_events(self.osc_buffer),
            },
        }
    }

    /// The machine after one byte: the byte is classified, the transition
    /// for the state and the class is looked up, the action is performed and
    /// the machine moves to the next state.
    pub open spec fn step(self, byte: u8) -> Step {
        let entry = transition(self.state, class_of(byte));
        let done = self.perform(entry.1, byte);
        Step { machine: Machine { state: entry.0, ..done.machine }, events: done.events }
    }

    /// The machine after a sequence of bytes, with all the events they
    /// produced.
    pub open spec fn feed(self, bytes: Seq<u8>) -> Step
        decreases bytes.len(),
    {
        if bytes.len() == 0 {
            Step { machine: self, events: Seq::empty() }
        } else {
            let before = self.feed(bytes.drop_last());
            let last = before.machine.step(bytes.last());
            Step { machine: last.machine, events: before.events + last.events }
        }
    }

    /// The machine after a chunk of bytes: the bytes are fed, and the
    /// printable bytes that are pending at the end of the chunk become an
    /// event.
    pub open spec fn run(self, bytes: Seq<u8>) -> Step {
        let fed = self.feed(bytes);
        Step {
            machine: fed.machine.without_data(),
            events: fed.events + fed.machine.pending_data(),
        }
    }
}

impl Sink {
    /// An ordinary event is delivered at once outside a synchronized update
    /// and waits inside one.
    pub open spec fn route(self, event: Event) -> Sink {
        if self.depth > 0 {
            Sink { pending: self.pending.push(event), ..self }
        } else {
            Sink { delivered: self.delivered.push(event), ..self }
        }
    }

    /// The start of a synchronized update is delivered at once and opens one
    /// more level. The depth stays at the largest `usize` once it is there.
    pub open spec fn begin(self) -> Sink {
        Sink {
            depth: if self.depth < usize::MAX {
                (self.depth + 1) as usize
            } else {
                self.depth
            },
            delivered: self.delivered.push(Event::BeginSynchronizedUpdate),
            ..self
        }
    }

    /// The end of a synchronized update closes one level, if one is open.
    /// Where it closes the last one, the waiting events are delivered in
    /// their order. The end itself is delivered after them.
    pub open spec fn end(self) -> Sink {
        if self.depth == 1 {
            Sink {
                depth: 0,
                pending: Seq::empty(),
                delivered: (self.delivered + self.pending).push(Event::EndSynchronizedUpdate),
            }
        } else if self.depth > 1 {
            Sink {
                depth: (self.depth - 1) as usize,
                delivered: self.delivered.push(Event::EndSynchronizedUpdate),
                ..self
            }
        } else {
            Sink { delivered: self.delivered.push(Event::EndSynchronizedUpdate), ..self }
        }
    }

    /// The sink after one produced event.
    pub open spec fn accept(self, event: Event) -> Sink {
        match event {
            Event::BeginSynchronizedUpdate => self.begin(),
            Event::EndSynchronizedUpdate => self.end(),
            _ => self.route(event),
        }
    }

    /// The sink after a sequence of produced events, taken in order.
    pub open spec fn accept_all(self, events: Seq<Event>) -> Sink
        decreases events.len(),
    {
        if events.len() == 0 {
            self
        } else {
            self.accept_all(events.drop_last()).accept(events.last())
        }
    }

    /// A sequence of one event is accepted as that event is.
    pub proof fn lemma_accept_one(self, event: Event)
        ensures
            self.accept_all(seq![event]) == self.accept(event),
    {
        assert(seq![event].drop_last() =~= Seq::<Event>::empty());
        assert(self.accept_all(Seq::<Event>::empty()) == self);
        assert(seq![event].last() == event);
    }

    /// A sequence with one more event is accepted as the sequence and then
    /// the event are.
    pub proof fn lemma_accept_push(self, events: Seq<Event>, event: Event)
        ensures
            self.accept_all(events.push(event)) == self.accept_all(events).accept(event),
    {
        assert(events.push(event).drop_last() =~= events);
    }

    /// Two sequences in a row are accepted as one after the other.
    pub proof fn lemma_accept_concat(self, first: Seq<Event>, second: Seq<Event>)
        ensures
            self.accept_all(first + second) == self.accept_all(first).accept_all(second),
        decreases second.len(),
    {
        if second.len() == 0 {
            assert(first + second =~= first);
        } else {
            assert((first + second).drop_last() =~= first + second.drop_last());
            self.lemma_accept_concat(first, second.drop_last());
        }
    }
}

impl ParserModel {
    /// A new parser: the initial machine, with no synchronized update open.
    pub open spec fn initial() -> ParserModel {
        ParserModel { machine: Machine::initial(), sync_depth: 0, sync_buffer: Seq::empty() }
    }

    /// The sink of a call that starts with this parser: nothing is
    /// delivered yet.
    pub open spec fn sink(self) -> Sink {
        Sink { depth: self.sync_depth, pending: self.sync_buffer, delivered: Seq::empty() }
    }

    /// The parser after a call that feeds `bytes`, and the events that the
    /// call returns: the machine runs over the chunk, and its events pass
    /// through the sink in the order in which they were produced.
    pub open spec fn pushed(self, bytes: Seq<u8>) -> Pushed {
        let ran = self.machine.run(bytes);
        let sink = self.sink().accept_all(ran.events);
        Pushed {
            parser: ParserModel {
                machine: ran.machine,
                sync_depth: sink.depth,
                sync_buffer: sink.pending,
            },
            events: sink.delivered,
        }
    }

    /// The invariant of a parser between calls: events wait only while a
    /// synchronized update is open, and the machine meets its own invariant.
    pub open spec fn wf(self) -> bool {
        &&& self.sync_depth == 0 ==> self.sync_buffer.len() == 0
        &&& self.machine.wf()
    }
}

impl Machine {
    /// The invariant of the machine: printable bytes are pending only in
    /// `Ground`, an operating system command is collected only in
    /// `OscString`, a device control string is held only in
    /// `DcsPassthrough`, and there are four character-set slots.
    pub open spec fn wf(self) -> bool {
        &&& self.data_buffer.len() > 0 ==> self.state == State::Ground
        &&& self.osc_buffer.len() > 0 ==> self.state == State::OscString
        &&& self.dcs_buffer.len() > 0 ==> self.state == State::DcsPassthrough
        &&& self.dcs_params_cache.len() > 0 ==> self.state == State::DcsPassthrough
        &&& self.dcs_intermediates_cache.len() > 0 ==> self.state == State::DcsPassthrough
        &&& self.charsets.len() == 4
    }
}

} // verus!
