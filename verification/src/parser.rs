//! The parser: the executable state machine and its dispatchers.

use vstd::prelude::*;
use vstd::utf8::encode_scalar;
use crate::definitions::{
    events_of, CharsetIndex, CursorShape, Event, Mode, SelectGraphicRendition, StandardCharset,
    TerminalOutput,
};
use crate::laws::lemma_pushed_preserves_wf;
use crate::model::{
    charset_of, control_events, osc_events, private_mode_events, sgr_at, sgr_events,
    sgr_events_from, sgr_next, Machine, ParserModel, Sink,
};
use crate::osc::osc_output;
use crate::tables::{classify, table_entry, unpack, Action, State};
use crate::text::{encode_char, repeated};

verus! {

/// An incremental parser for the byte stream of a terminal.
pub struct AnsiParser {
    pub(crate) state: State,
    pub(crate) params: Vec<usize>,
    pub(crate) current_param: Option<usize>,
    pub(crate) intermediates: Vec<u8>,
    pub(crate) data_buffer: Vec<u8>,
    pub(crate) osc_buffer: Vec<u8>,
    pub(crate) dcs_buffer: Vec<u8>,
    pub(crate) dcs_params_cache: Vec<usize>,
    pub(crate) dcs_intermediates_cache: Vec<u8>,
    pub(crate) active_charset: CharsetIndex,
    pub(crate) charsets: [StandardCharset; 4],
    pub(crate) sync_update_depth: usize,
    pub(crate) sync_buffer: Vec<TerminalOutput>,
    pub(crate) preceding_char: Option<char>,
}

impl View for AnsiParser {
    type V = ParserModel;

    closed spec fn view(&self) -> ParserModel {
        ParserModel {
            machine: Machine {
                state: self.state,
                params: self.params@,
                current_param: self.current_param,
                intermediates: self.intermediates@,
                data_buffer: self.data_buffer@,
                osc_buffer: self.osc_buffer@,
                dcs_buffer: self.dcs_buffer@,
                dcs_params_cache: self.dcs_params_cache@,
                dcs_intermediates_cache: self.dcs_intermediates_cache@,
                active_charset: self.active_charset,
                charsets: self.charsets@,
                preceding_char: self.preceding_char,
            },
            sync_depth: self.sync_update_depth,
            sync_buffer: events_of(self.sync_buffer@),
        }
    }
}

/// The events of an output vector with one more item are the events of the
/// vector and then the event of the item.
proof fn lemma_events_of_push(outputs: Seq<TerminalOutput>, item: TerminalOutput)
    ensures
        events_of(outputs.push(item)) == events_of(outputs).push(item@),
{
    assert(events_of(outputs.push(item)) =~= events_of(outputs).push(item@));
}

impl AnsiParser {
    /// The sink of a call in progress: the open synchronized updates and the
    /// waiting events of the parser, and the events of `output` as delivered.
    pub open spec fn sink(&self, output: Seq<TerminalOutput>) -> Sink {
        Sink {
            depth: self@.sync_depth,
            pending: self@.sync_buffer,
            delivered: events_of(output),
        }
    }

    /// Creates a parser in its initial state.
    pub fn new() -> (parser: AnsiParser)
        ensures
            parser@ == ParserModel::initial(),
            parser@.wf(),
    {
        let parser = AnsiParser {
            state: State::Ground,
            params: Vec::with_capacity(8),
            current_param: None,
            intermediates: Vec::with_capacity(4),
            data_buffer: Vec::with_capacity(256),
            osc_buffer: Vec::with_capacity(256),
            dcs_buffer: Vec::with_capacity(256),
            dcs_params_cache: Vec::with_capacity(8),
            dcs_intermediates_cache: Vec::with_capacity(4),
            active_charset: CharsetIndex::G0,
            charsets: [StandardCharset::Ascii; 4],
            sync_update_depth: 0,
            sync_buffer: Vec::new(),
            preceding_char: None,
        };
        assert(parser@.machine.charsets =~= Machine::initial().charsets);
        assert(parser@.sync_buffer =~= Seq::empty());
        parser
    }

    /// The parameter at `index`, or `default` where there is none.
    pub(crate) fn get_param(&self, index: usize, default: usize) -> (value: usize)
        ensures
            value == self@.machine.param_or(index as int, default),
    {
        if index < self.params.len() {
            self.params[index]
        } else {
            default
        }
    }

    /// The parameter at `index`, if there is one.
    pub(crate) fn get_param_opt(&self, index: usize) -> (value: Option<usize>)
        ensures
            value == self@.machine.param_opt(index as int),
    {
        if index < self.params.len() {
            Some(self.params[index])
        } else {
            None
        }
    }

    /// Hands an ordinary event to the sink: to the output outside a
    /// synchronized update, to the waiting events inside one.
    pub(crate) fn emit_output(&mut self, output: &mut Vec<TerminalOutput>, item: TerminalOutput)
        ensures
            final(self)@.machine == old(self)@.machine,
            final(self).sink(final(output)@) == old(self).sink(old(output)@).route(item@),
            !(item@ is BeginSynchronizedUpdate) && !(item@ is EndSynchronizedUpdate)
                ==> final(self).sink(final(output)@) == old(self).sink(old(output)@).accept_all(
                seq![item@],
            ),
    {
        proof {
            lemma_events_of_push(self.sync_buffer@, item);
            lemma_events_of_push(output@, item);
            self.sink(output@).lemma_accept_one(item@);
        }
        if self.sync_update_depth > 0 {
            self.sync_buffer.push(item);
        } else {
            output.push(item);
        }
    }

    /// Turns the pending printable bytes into a `Data` event, if there are any.
    pub(crate) fn flush_data(&mut self, output: &mut Vec<TerminalOutput>)
        ensures
            final(self)@.machine == old(self)@.machine.without_data(),
            final(self).sink(final(output)@) == old(self).sink(old(output)@).accept_all(
                old(self)@.machine.pending_data(),
            ),
    {
        if !self.data_buffer.is_empty() {
            let mut data: Vec<u8> = Vec::new();
            std::mem::swap(&mut self.data_buffer, &mut data);
            self.emit_output(output, TerminalOutput::Data(data));
        } else {
            assert(self.data_buffer@ =~= Seq::empty());
        }
    }

    /// Delivers the waiting events to the output, in their order.
    pub(crate) fn flush_sync_buffer(&mut self, output: &mut Vec<TerminalOutput>)
        ensures
            final(self)@.machine == old(self)@.machine,
            final(self)@.sync_depth == old(self)@.sync_depth,
            final(self)@.sync_buffer == Seq::<Event>::empty(),
            events_of(final(output)@) == events_of(old(output)@) + old(self)@.sync_buffer,
    {
        if !self.sync_buffer.is_empty() {
            output.append(&mut self.sync_buffer);
        }
        assert(events_of(self.sync_buffer@) =~= Seq::<Event>::empty());
        assert(events_of(output@) =~= events_of(old(output)@) + old(self)@.sync_buffer);
    }

    /// Forgets the parameters and the intermediates.
    pub(crate) fn clear_state(&mut self)
        ensures
            final(self)@.machine == old(self)@.machine.cleared(),
            final(self)@.sync_depth == old(self)@.sync_depth,
            final(self)@.sync_buffer == old(self)@.sync_buffer,
    {
        self.params.clear();
        self.current_param = None;
        self.intermediates.clear();
    }
    /// Reads the attribute at index `i` of a `CSI ... m` sequence, where the
    /// parameter there opens an extended colour, and finds the index of the
    /// parameter after it.
    fn parse_extended_colour(&self, i: usize) -> (found: (SelectGraphicRendition, usize))
        requires
            i < self@.machine.params.len(),
            self@.machine.params[i as int] == 38 || self@.machine.params[i as int] == 48,
        ensures
            found.0 == sgr_at(self@.machine.params, i as int),
            found.1 == sgr_next(self@.machine.params, i as int),
            i < found.1 <= self@.machine.params.len(),
    {
        let code: usize = self.params[i];
        let available: usize = self.params.len() - i;
        if available > 2 && self.params[i + 1] == 5 {
            let color: u8 = (self.params[i + 2] % 256) as u8;
            if code == 38 {
                (SelectGraphicRendition::Foreground8Bit(color), i + 3)
            } else {
                (SelectGraphicRendition::Background8Bit(color), i + 3)
            }
        } else if available > 4 && self.params[i + 1] == 2 {
            let r: u8 = (self.params[i + 2] % 256) as u8;
            let g: u8 = (self.params[i + 3] % 256) as u8;
            let b: u8 = (self.params[i + 4] % 256) as u8;
            if code == 38 {
                (SelectGraphicRendition::ForegroundTrueColor(r, g, b), i + 5)
            } else {
                (SelectGraphicRendition::BackgroundTrueColor(r, g, b), i + 5)
            }
        } else {
            let mut last: usize = i;
            if available > 1 {
                let subtype: usize = self.params[i + 1];
                if subtype == 5 {
                    last = i + (if available < 3 { available } else { 3 }) - 1;
                } else if subtype == 2 {
                    last = i + (if available < 5 { available } else { 5 }) - 1;
                } else {
                    last = i + 1;
                }
            }
            (SelectGraphicRendition::Unknown(code), last + 1)
        }
    }

    /// Emits one event for each attribute of a `CSI ... m` sequence.
    pub(crate) fn parse_sgr(&mut self, output: &mut Vec<TerminalOutput>)
        ensures
            final(self)@.machine == old(self)@.machine,
            final(self).sink(final(output)@) == old(self).sink(old(output)@).accept_all(
                sgr_events(old(self)@.machine.params),
            ),
    {
        if self.params.is_empty() {
            self.emit_output(output, TerminalOutput::Sgr(SelectGraphicRendition::Reset));
            return ;
        }
        let ghost start = self.sink(output@);
        let ghost params = self@.machine.params;
        let ghost mut done: Seq<Event> = Seq::empty();
        let mut i: usize = 0;
        while i < self.params.len()
            invariant
                self@.machine == old(self)@.machine,
                params == old(self)@.machine.params,
                i <= params.len(),
                self.sink(output@) == start.accept_all(done),
                done + sgr_events_from(params, i as int) == sgr_events_from(params, 0),
            decreases params.len() - i,
        {
            let param: usize = self.params[i];
            let (sgr, next) = if param == 38 || param == 48 {
                self.parse_extended_colour(i)
            } else {
                (SelectGraphicRendition::from_usize(param), i + 1)
            };
            self.emit_output(output, TerminalOutput::Sgr(sgr));
            proof {
                start.lemma_accept_push(done, Event::Sgr(sgr));
                assert(done.push(Event::Sgr(sgr)) + sgr_events_from(params, next as int) =~= done
                    + sgr_events_from(params, i as int));
                done = done.push(Event::Sgr(sgr));
            }
            i = next;
        }
        assert(done =~= sgr_events_from(params, 0));
    }
    /// Dispatches a private-mode sequence, `CSI ? param h` where `set` holds
    /// and `CSI ? param l` where it does not.
    fn perform_private_mode(&mut self, set: bool, param: usize, output: &mut Vec<TerminalOutput>)
        ensures
            final(self)@.machine == old(self)@.machine,
            final(self).sink(final(output)@) == old(self).sink(old(output)@).accept_all(
                private_mode_events(set, param),
            ),
    {
        match param {
            25 => self.emit_output(output, TerminalOutput::SetCursorVisibility(set)),
            1049 => if set {
                self.emit_output(output, TerminalOutput::EnterAltScreen)
            } else {
                self.emit_output(output, TerminalOutput::ExitAltScreen)
            },
            1 => if set {
                self.emit_output(output, TerminalOutput::SetMode(Mode::Decckm))
            } else {
                self.emit_output(output, TerminalOutput::ResetMode(Mode::Decckm))
            },
            2004 => if set {
                self.emit_output(output, TerminalOutput::SetMode(Mode::BracketedPaste))
            } else {
                self.emit_output(output, TerminalOutput::ResetMode(Mode::BracketedPaste))
            },
            1037 => if set {
                self.emit_output(output, TerminalOutput::SetMode(Mode::ModifyOtherKeys))
            } else {
                self.emit_output(output, TerminalOutput::ResetMode(Mode::ModifyOtherKeys))
            },
            2026 => {
                let ghost start = self.sink(output@);
                if set {
                    proof {
                        lemma_events_of_push(output@, TerminalOutput::BeginSynchronizedUpdate);
                        start.lemma_accept_one(Event::BeginSynchronizedUpdate);
                    }
                    output.push(TerminalOutput::BeginSynchronizedUpdate);
                    if self.sync_update_depth < usize::MAX {
                        self.sync_update_depth += 1;
                    }
                } else {
                    if self.sync_update_depth > 0 {
                        self.sync_update_depth -= 1;
                        if self.sync_update_depth == 0 {
                            self.flush_sync_buffer(output);
                        }
                    }
                    proof {
                        lemma_events_of_push(output@, TerminalOutput::EndSynchronizedUpdate);
                        start.lemma_accept_one(Event::EndSynchronizedUpdate);
                    }
                    output.push(TerminalOutput::EndSynchronizedUpdate);
                }
            },
            _ => {},
        }
    }

    /// Repeats the character that was printed last, `count` times.
    fn repeat_char(c: char, count: usize) -> (bytes: Vec<u8>)
        ensures
            bytes@ == repeated(encode_scalar(c as u32), count as nat),
    {
        let mut bytes: Vec<u8> = Vec::new();
        let mut n: usize = 0;
        while n < count
            invariant
                n <= count,
                bytes@ == repeated(encode_scalar(c as u32), n as nat),
            decreases count - n,
        {
            encode_char(c, &mut bytes);
            n += 1;
        }
        bytes
    }

    /// A coordinate from the parameter at `index`: at least 1, and 1 where
    /// the parameter is missing.
    fn get_coordinate(&self, index: usize) -> (value: usize)
        ensures
            value == self@.machine.coordinate(index as int),
    {
        match self.get_param_opt(index) {
            Some(v) => if v >= 1 {
                v
            } else {
                1
            },
            None => 1,
        }
    }

    /// Dispatches `CSI params intermediates terminator`, once the last
    /// parameter is closed.
    pub(crate) fn perform_csi_dispatch(&mut self, terminator: u8, output: &mut Vec<TerminalOutput>)
        ensures
            final(self)@.machine == old(self)@.machine,
            final(self).sink(final(output)@) == old(self).sink(old(output)@).accept_all(
                old(self)@.machine.csi_events(terminator),
            ),
    {
        let param: usize = self.get_param(0, 0);
        if !self.intermediates.is_empty() {
            let first: u8 = self.intermediates[0];
            if first == 0x3F {
                if terminator == 0x68 {
                    self.perform_private_mode(true, param, output);
                } else if terminator == 0x6C {
                    self.perform_private_mode(false, param, output);
                }
            } else if first == 0x20 && terminator == 0x71 {
                let (shape, blinking) = match param {
                    0 | 1 => (CursorShape::Block, true),
                    2 => (CursorShape::Block, false),
                    3 => (CursorShape::Underline, true),
                    4 => (CursorShape::Underline, false),
                    5 => (CursorShape::Beam, true),
                    6 => (CursorShape::Beam, false),
                    _ => (CursorShape::Block, true),
                };
                self.emit_output(output, TerminalOutput::SetCursorStyle { shape, blinking });
            }
            return ;
        }
        match terminator {
            // Character repeat
            0x62 => {
                if let Some(ch) = self.preceding_char {
                    let count: usize = self.get_param(0, 1);
                    let bytes = Self::repeat_char(ch, count);
                    self.emit_output(output, TerminalOutput::Data(bytes));
                }
            },
            // Cursor movement
            0x41 => self.emit_output(output, TerminalOutput::CursorUp(self.get_param(0, 1))),
            0x42 => self.emit_output(output, TerminalOutput::CursorDown(self.get_param(0, 1))),
            0x43 => self.emit_output(output, TerminalOutput::CursorForward(self.get_param(0, 1))),
            0x44 => self.emit_output(output, TerminalOutput::CursorBackward(self.get_param(0, 1))),
            0x48 | 0x66 => {
                let y: usize = self.get_coordinate(0);
                let x: usize = self.get_coordinate(1);
                self.emit_output(output, TerminalOutput::SetCursorPos { x: Some(x), y: Some(y) });
            },
            0x47 => {
                let x: usize = self.get_coordinate(0);
                self.emit_output(output, TerminalOutput::SetCursorPos { x: Some(x), y: None });
            },
            // Erasing
            0x4A => match param {
                0 => self.emit_output(output, TerminalOutput::ClearForwards),
                2 | 3 => self.emit_output(output, TerminalOutput::ClearAll),
                _ => {},
            },
            0x4B => match param {
                0 | 2 => self.emit_output(output, TerminalOutput::ClearLineForwards),
                1 => self.emit_output(output, TerminalOutput::Backspace),
                _ => {},
            },
            0x50 => self.emit_output(output, TerminalOutput::Delete(self.get_param(0, 1))),
            0x40 => self.emit_output(output, TerminalOutput::InsertSpaces(self.get_param(0, 1))),
            // Graphic rendition
            0x6D => self.parse_sgr(output),
            // Scrolling region
            0x72 => {
                let top: usize = self.get_param(0, 1);
                let bottom: Option<usize> = self.get_param_opt(1);
                self.emit_output(output, TerminalOutput::SetScrollingRegion { top, bottom });
            },
            _ => {},
        }
    }

    /// The character set that the final byte of a designation names.
    pub(crate) fn parse_charset(&self, byte: u8) -> (charset: Option<StandardCharset>)
        ensures
            charset == charset_of(byte),
    {
        match byte {
            0x42 => Some(StandardCharset::Ascii),
            0x30 => Some(StandardCharset::SpecialCharacterAndLineDrawing),
            _ => None,
        }
    }

    /// Translates a character through the active character set.
    pub(crate) fn map_char(&self, c: char) -> (mapped: char)
        ensures
            mapped == self@.machine.charset().translate(c),
    {
        let charset = match self.active_charset {
            CharsetIndex::G0 => self.charsets[0],
            CharsetIndex::G1 => self.charsets[1],
            CharsetIndex::G2 => self.charsets[2],
            CharsetIndex::G3 => self.charsets[3],
        };
        charset.map(c)
    }

    /// Dispatches `ESC intermediates terminator`.
    pub(crate) fn perform_esc_dispatch(&mut self, terminator: u8, output: &mut Vec<TerminalOutput>)
        ensures
            final(self)@.machine == old(self)@.machine.designated(terminator),
            final(self).sink(final(output)@) == old(self).sink(old(output)@).accept_all(
                old(self)@.machine.esc_events(terminator),
            ),
    {
        if self.intermediates.is_empty() {
            match terminator {
                0x44 | 0x45 => self.emit_output(output, TerminalOutput::Newline),
                0x4D => self.emit_output(output, TerminalOutput::CursorUp(1)),
                // A string terminator outside a string, and everything else.
                _ => {},
            }
            return ;
        }
        let index = match self.intermediates[0] {
            0x28 => CharsetIndex::G0,
            0x29 => CharsetIndex::G1,
            0x2A => CharsetIndex::G2,
            0x2B => CharsetIndex::G3,
            _ => {
                return ;
            },
        };
        if let Some(charset) = self.parse_charset(terminator) {
            self.charsets[index.index()] = charset;
            assert(self@.machine.charsets =~= old(self)@.machine.charsets.update(
                index.slot(),
                charset,
            ));
            self.emit_output(output, TerminalOutput::ConfigureCharset { index, charset });
        }
    }
    /// Dispatches the operating system command in the buffer.
    pub(crate) fn perform_osc_dispatch(&mut self, output: &mut Vec<TerminalOutput>)
        ensures
            final(self)@.machine == old(self)@.machine,
            final(self).sink(final(output)@) == old(self).sink(old(output)@).accept_all(
                osc_events(old(self)@.machine.osc_buffer),
            ),
    {
        let event = osc_output(self.osc_buffer.as_slice());
        if let Some(item) = event {
            self.emit_output(output, item);
        }
    }

    /// Performs a C0 control byte.
    fn perform_execute(&mut self, byte: u8, output: &mut Vec<TerminalOutput>)
        ensures
            final(self)@.machine == old(self)@.machine.executed(byte),
            final(self).sink(final(output)@) == old(self).sink(old(output)@).accept_all(
                control_events(byte),
            ),
    {
        match byte {
            0x08 | 0x7F => self.emit_output(output, TerminalOutput::Backspace),
            0x0A | 0x0B | 0x0C => self.emit_output(output, TerminalOutput::Newline),
            0x0D => self.emit_output(output, TerminalOutput::CarriageReturn),
            0x0E => {
                // Shift out: G1 becomes active.
                self.active_charset = CharsetIndex::G1;
                self.emit_output(output, TerminalOutput::SetActiveCharset(CharsetIndex::G1));
            },
            0x0F => {
                // Shift in: G0 becomes active.
                self.active_charset = CharsetIndex::G0;
                self.emit_output(output, TerminalOutput::SetActiveCharset(CharsetIndex::G0));
            },
            0x11 | 0x12 | 0x13 | 0x14 => {
                self.emit_output(output, TerminalOutput::DeviceControl { code: byte });
            },
            _ => {},
        }
    }

    /// Stores a printable byte.
    fn perform_print(&mut self, byte: u8)
        ensures
            final(self)@.machine == old(self)@.machine.printed(byte),
            final(self)@.sync_depth == old(self)@.sync_depth,
            final(self)@.sync_buffer == old(self)@.sync_buffer,
    {
        if byte < 0x80 {
            let ch: char = byte as char;
            let mapped: char = self.map_char(ch);
            encode_char(mapped, &mut self.data_buffer);
            self.preceding_char = Some(ch);
        } else {
            self.data_buffer.push(byte);
        }
    }

    /// Takes a parameter byte into the parameters. The value of a parameter
    /// stops at the largest `usize`.
    fn accumulate_param(&mut self, byte: u8)
        ensures
            final(self)@.machine == old(self)@.machine.with_param_byte(byte),
            final(self)@.sync_depth == old(self)@.sync_depth,
            final(self)@.sync_buffer == old(self)@.sync_buffer,
    {
        let current: usize = match self.current_param {
            Some(p) => p,
            None => 0,
        };
        if byte == 0x3B {
            self.params.push(current);
            self.current_param = None;
        } else if byte >= 0x30 && byte <= 0x39 {
            let digit: usize = (byte - 0x30) as usize;
            let scaled: Option<usize> = current.checked_mul(10);
            let next: usize = match scaled {
                Some(tens) => match tens.checked_add(digit) {
                    Some(value) => value,
                    None => usize::MAX,
                },
                None => usize::MAX,
            };
            self.current_param = Some(next);
        } else if byte == 0x3F {
            self.intermediates.push(byte);
        }
    }

    /// Closes the last parameter of a sequence.
    fn finish_params(&mut self)
        ensures
            final(self)@.machine == old(self)@.machine.with_final_param(),
            final(self)@.sync_depth == old(self)@.sync_depth,
            final(self)@.sync_buffer == old(self)@.sync_buffer,
    {
        if let Some(p) = self.current_param {
            self.params.push(p);
        } else if !self.params.is_empty() {
            // The last parameter of `CSI ; ; m` has no digit and counts as 0.
            self.params.push(0);
        }
    }

    /// Starts a device control string whose header ends with `byte`.
    fn perform_hook(&mut self, byte: u8)
        ensures
            final(self)@.machine == old(self)@.machine.with_final_param().hooked(byte),
            final(self)@.sync_depth == old(self)@.sync_depth,
            final(self)@.sync_buffer == old(self)@.sync_buffer,
    {
        self.finish_params();
        self.dcs_params_cache = self.params.clone();
        self.dcs_intermediates_cache = self.intermediates.clone();
        self.dcs_buffer.clear();
        // The final byte of the header is the first byte of the data.
        self.dcs_buffer.push(byte);
        assert(self.dcs_params_cache@ =~= self.params@);
        assert(self.dcs_intermediates_cache@ =~= self.intermediates@);
        assert(self.dcs_buffer@ =~= seq![byte]);
    }

    /// Ends a device control string and emits it.
    fn perform_unhook(&mut self, output: &mut Vec<TerminalOutput>)
        ensures
            final(self)@.machine == old(self)@.machine.unhooked(),
            final(self).sink(final(output)@) == old(self).sink(old(output)@).accept_all(
                seq![old(self)@.machine.dcs_event()],
            ),
    {
        let mut params: Vec<usize> = Vec::new();
        let mut intermediates: Vec<u8> = Vec::new();
        let mut data: Vec<u8> = Vec::new();
        std::mem::swap(&mut self.dcs_params_cache, &mut params);
        std::mem::swap(&mut self.dcs_intermediates_cache, &mut intermediates);
        std::mem::swap(&mut self.dcs_buffer, &mut data);
        self.emit_output(output, TerminalOutput::DeviceControlString { params, intermediates, data });
    }

    /// Takes one byte: classifies it, looks up the transition, performs the
    /// action and moves to the next state.
    fn advance(&mut self, byte: u8, output: &mut Vec<TerminalOutput>)
        ensures
            final(self)@.machine == old(self)@.machine.step(byte).machine,
            final(self).sink(final(output)@) == old(self).sink(old(output)@).accept_all(
                old(self)@.machine.step(byte).events,
            ),
    {
        let ghost start = self.sink(output@);
        let ghost before = self@.machine;
        let ghost pending = before.pending_data();
        let class = classify(byte);
        let entry = table_entry(self.state, class);
        let (next_state, action) = unpack(entry).unwrap();
        match action {
            Action::Pass | Action::Ignore => {},
            Action::Print => self.perform_print(byte),
            Action::Execute => {
                self.flush_data(output);
                self.perform_execute(byte, output);
                proof {
                    start.lemma_accept_concat(pending, control_events(byte));
                }
            },
            Action::Clear => {
                self.flush_data(output);
                self.clear_state();
            },
            Action::Collect => self.intermediates.push(byte),
            Action::Param => self.accumulate_param(byte),
            Action::EscDispatch => {
                self.flush_data(output);
                self.perform_esc_dispatch(byte, output);
                self.clear_state();
                proof {
                    start.lemma_accept_concat(pending, before.esc_events(byte));
                }
            },
            Action::CsiDispatch => {
                self.flush_data(output);
                self.finish_params();
                self.perform_csi_dispatch(byte, output);
                self.clear_state();
                proof {
                    start.lemma_accept_concat(pending, before.with_final_param().csi_events(byte));
                }
            },
            Action::OscStart => {
                self.flush_data(output);
                self.osc_buffer.clear();
            },
            Action::OscPut => self.osc_buffer.push(byte),
            Action::OscEnd => {
                self.perform_osc_dispatch(output);
                self.osc_buffer.clear();
            },
            Action::Hook => {
                self.flush_data(output);
                self.perform_hook(byte);
            },
            Action::Put => self.dcs_buffer.push(byte),
            Action::Unhook => self.perform_unhook(output),
        }
        self.state = next_state;
    }

    /// Feeds a chunk of bytes to the parser and returns the events that
    /// are due after it. A chunk may end anywhere, also inside a sequence:
    /// the parser keeps what it has read until the next call. Printable
    /// bytes that are pending at the end of the chunk are emitted with it.
    ///
    /// Every byte sequence is accepted. The model of the call is
    /// [`ParserModel::pushed`].
    pub fn push(&mut self, incoming: &[u8]) -> (output: Vec<TerminalOutput>)
        ensures
            final(self)@ == old(self)@.pushed(incoming@).parser,
            events_of(output@) == old(self)@.pushed(incoming@).events,
            old(self)@.wf() ==> final(self)@.wf(),
    {
        let mut output: Vec<TerminalOutput> = Vec::new();
        let ghost start = self.sink(output@);
        let ghost machine = self@.machine;
        assert(start == self@.sink()) by {
            assert(events_of(output@) =~= Seq::<Event>::empty());
        }
        let mut i: usize = 0;
        while i < incoming.len()
            invariant
                i <= incoming@.len(),
                self@.machine == machine.feed(incoming@.subrange(0, i as int)).machine,
                self.sink(output@) == start.accept_all(
                    machine.feed(incoming@.subrange(0, i as int)).events,
                ),
            decreases incoming@.len() - i,
        {
            let ghost fed = machine.feed(incoming@.subrange(0, i as int));
            proof {
                assert(incoming@.subrange(0, i + 1).drop_last() =~= incoming@.subrange(0, i as int));
                start.lemma_accept_concat(fed.events, fed.machine.step(incoming@[i as int]).events);
            }
            self.advance(incoming[i], &mut output);
            i += 1;
        }
        let ghost fed = machine.feed(incoming@);
        proof {
            assert(incoming@.subrange(0, i as int) =~= incoming@);
            start.lemma_accept_concat(fed.events, fed.machine.pending_data());
        }
        self.flush_data(&mut output);
        proof {
            if old(self)@.wf() {
                lemma_pushed_preserves_wf(old(self)@, incoming@);
            }
        }
        output
    }
}

impl Default for AnsiParser {
    fn default() -> (parser: AnsiParser)
        ensures
            parser@ == ParserModel::initial(),
            parser@.wf(),
    {
        AnsiParser::new()
    }
}

} // verus!
