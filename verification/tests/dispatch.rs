use ansi_parser::{
    AnsiParser, CharsetIndex, CursorShape, Mode, SelectGraphicRendition, StandardCharset,
    TerminalOutput,
};

fn run(bytes: &[u8]) -> Vec<TerminalOutput> {
    AnsiParser::new().push(bytes)
}

fn sgr(bytes: &[u8]) -> Vec<SelectGraphicRendition> {
    run(bytes)
        .into_iter()
        .map(|event| match event {
            TerminalOutput::Sgr(attribute) => attribute,
            other => panic!("not an attribute: {:?}", other),
        })
        .collect()
}

#[test]
fn c0_controls() {
    assert_eq!(run(b"\x08"), vec![TerminalOutput::Backspace]);
    assert_eq!(run(b"\x7F"), vec![TerminalOutput::Backspace]);
    assert_eq!(run(b"\x0A"), vec![TerminalOutput::Newline]);
    assert_eq!(run(b"\x0B"), vec![TerminalOutput::Newline]);
    assert_eq!(run(b"\x0C"), vec![TerminalOutput::Newline]);
    assert_eq!(run(b"\x0D"), vec![TerminalOutput::CarriageReturn]);
    assert_eq!(run(b"\x0E"), vec![TerminalOutput::SetActiveCharset(CharsetIndex::G1)]);
    assert_eq!(run(b"\x0F"), vec![TerminalOutput::SetActiveCharset(CharsetIndex::G0)]);
    for code in 0x11u8..=0x14 {
        assert_eq!(run(&[code]), vec![TerminalOutput::DeviceControl { code }]);
    }
}

#[test]
fn other_c0_controls_are_dropped() {
    for code in [0x00u8, 0x01, 0x07, 0x09, 0x10, 0x15, 0x18, 0x19, 0x1A, 0x1C, 0x1F] {
        assert_eq!(run(&[code]), vec![]);
    }
}

#[test]
fn control_inside_text_splits_the_data() {
    assert_eq!(
        run(b"ab\rcd\n"),
        vec![
            TerminalOutput::Data(b"ab".to_vec()),
            TerminalOutput::CarriageReturn,
            TerminalOutput::Data(b"cd".to_vec()),
            TerminalOutput::Newline,
        ]
    );
}

#[test]
fn control_inside_a_sequence_is_executed() {
    assert_eq!(
        run(b"\x1B[3\x0A1m"),
        vec![
            TerminalOutput::Newline,
            TerminalOutput::Sgr(SelectGraphicRendition::ForegroundRed),
        ]
    );
}

#[test]
fn high_bytes_pass_through() {
    assert_eq!(
        run(&[0xE2, 0x94, 0x80, 0xFF, 0x80]),
        vec![TerminalOutput::Data(vec![0xE2, 0x94, 0x80, 0xFF, 0x80])]
    );
}

#[test]
fn esc_finals() {
    assert_eq!(run(b"\x1BD"), vec![TerminalOutput::Newline]);
    assert_eq!(run(b"\x1BE"), vec![TerminalOutput::Newline]);
    assert_eq!(run(b"\x1BM"), vec![TerminalOutput::CursorUp(1)]);
    assert_eq!(run(b"\x1B\\"), vec![]);
    assert_eq!(run(b"\x1Bc"), vec![]);
    assert_eq!(run(b"\x1B7"), vec![]);
}

#[test]
fn charset_designation() {
    let slots = [
        (b'(', CharsetIndex::G0),
        (b')', CharsetIndex::G1),
        (b'*', CharsetIndex::G2),
        (b'+', CharsetIndex::G3),
    ];
    for (intermediate, index) in slots {
        assert_eq!(
            run(&[0x1B, intermediate, b'0']),
            vec![TerminalOutput::ConfigureCharset {
                index,
                charset: StandardCharset::SpecialCharacterAndLineDrawing,
            }]
        );
        assert_eq!(
            run(&[0x1B, intermediate, b'B']),
            vec![TerminalOutput::ConfigureCharset { index, charset: StandardCharset::Ascii }]
        );
        assert_eq!(run(&[0x1B, intermediate, b'A']), vec![]);
    }
    assert_eq!(run(b"\x1B#8"), vec![]);
}

#[test]
fn line_drawing_translates_printed_text() {
    assert_eq!(
        run(b"\x1B(0lqk\x1B(Blqk"),
        vec![
            TerminalOutput::ConfigureCharset {
                index: CharsetIndex::G0,
                charset: StandardCharset::SpecialCharacterAndLineDrawing,
            },
            TerminalOutput::Data("\u{250C}\u{2500}\u{2510}".as_bytes().to_vec()),
            TerminalOutput::ConfigureCharset { index: CharsetIndex::G0, charset: StandardCharset::Ascii },
            TerminalOutput::Data(b"lqk".to_vec()),
        ]
    );
}

#[test]
fn shift_out_and_in_select_the_slot() {
    assert_eq!(
        run(b"\x1B)0x\x0Ex\x0Fx"),
        vec![
            TerminalOutput::ConfigureCharset {
                index: CharsetIndex::G1,
                charset: StandardCharset::SpecialCharacterAndLineDrawing,
            },
            TerminalOutput::Data(b"x".to_vec()),
            TerminalOutput::SetActiveCharset(CharsetIndex::G1),
            TerminalOutput::Data("\u{2502}".as_bytes().to_vec()),
            TerminalOutput::SetActiveCharset(CharsetIndex::G0),
            TerminalOutput::Data(b"x".to_vec()),
        ]
    );
}

#[test]
fn line_drawing_glyphs() {
    let glyphs = "\u{25C6}\u{2592}\u{2409}\u{240C}\u{240D}\u{240A}\u{00B0}\u{00B1}\u{2424}\u{240B}\
                  \u{2518}\u{2510}\u{250C}\u{2514}\u{253C}\u{23BA}\u{23BB}\u{2500}\u{23BC}\u{23BD}\
                  \u{251C}\u{2524}\u{2534}\u{252C}\u{2502}\u{2264}\u{2265}\u{03C0}\u{2260}\u{00A3}\
                  \u{00B7}";
    let set = StandardCharset::SpecialCharacterAndLineDrawing;
    let mut mapped = String::new();
    for code in 0x60u8..=0x7E {
        mapped.push(set.map(code as char));
        assert_eq!(StandardCharset::Ascii.map(code as char), code as char);
    }
    assert_eq!(mapped, glyphs);
    assert_eq!(set.map('_'), '_');
    assert_eq!(set.map('\u{7F}'), '\u{7F}');
    assert_eq!(set.map('A'), 'A');
    assert_eq!(set.map('\u{2500}'), '\u{2500}');
}

#[test]
fn cursor_movement() {
    assert_eq!(run(b"\x1B[A"), vec![TerminalOutput::CursorUp(1)]);
    assert_eq!(run(b"\x1B[5A"), vec![TerminalOutput::CursorUp(5)]);
    assert_eq!(run(b"\x1B[0A"), vec![TerminalOutput::CursorUp(0)]);
    assert_eq!(run(b"\x1B[B"), vec![TerminalOutput::CursorDown(1)]);
    assert_eq!(run(b"\x1B[12B"), vec![TerminalOutput::CursorDown(12)]);
    assert_eq!(run(b"\x1B[C"), vec![TerminalOutput::CursorForward(1)]);
    assert_eq!(run(b"\x1B[7C"), vec![TerminalOutput::CursorForward(7)]);
    assert_eq!(run(b"\x1B[D"), vec![TerminalOutput::CursorBackward(1)]);
    assert_eq!(run(b"\x1B[3D"), vec![TerminalOutput::CursorBackward(3)]);
}

#[test]
fn cursor_position_defaults_and_clamps() {
    let home = vec![TerminalOutput::SetCursorPos { x: Some(1), y: Some(1) }];
    assert_eq!(run(b"\x1B[H"), home);
    assert_eq!(run(b"\x1B[f"), home);
    assert_eq!(run(b"\x1B[0;0H"), home);
    assert_eq!(run(b"\x1B[;5H"), vec![TerminalOutput::SetCursorPos { x: Some(5), y: Some(1) }]);
    assert_eq!(run(b"\x1B[7H"), vec![TerminalOutput::SetCursorPos { x: Some(1), y: Some(7) }]);
    assert_eq!(run(b"\x1B[3;4f"), vec![TerminalOutput::SetCursorPos { x: Some(4), y: Some(3) }]);
    assert_eq!(run(b"\x1B[G"), vec![TerminalOutput::SetCursorPos { x: Some(1), y: None }]);
    assert_eq!(run(b"\x1B[0G"), vec![TerminalOutput::SetCursorPos { x: Some(1), y: None }]);
    assert_eq!(run(b"\x1B[9G"), vec![TerminalOutput::SetCursorPos { x: Some(9), y: None }]);
}

#[test]
fn erasing() {
    assert_eq!(run(b"\x1B[J"), vec![TerminalOutput::ClearForwards]);
    assert_eq!(run(b"\x1B[0J"), vec![TerminalOutput::ClearForwards]);
    assert_eq!(run(b"\x1B[1J"), vec![]);
    assert_eq!(run(b"\x1B[2J"), vec![TerminalOutput::ClearAll]);
    assert_eq!(run(b"\x1B[3J"), vec![TerminalOutput::ClearAll]);
    assert_eq!(run(b"\x1B[4J"), vec![]);
    assert_eq!(run(b"\x1B[K"), vec![TerminalOutput::ClearLineForwards]);
    assert_eq!(run(b"\x1B[0K"), vec![TerminalOutput::ClearLineForwards]);
    assert_eq!(run(b"\x1B[1K"), vec![TerminalOutput::Backspace]);
    assert_eq!(run(b"\x1B[2K"), vec![TerminalOutput::ClearLineForwards]);
    assert_eq!(run(b"\x1B[3K"), vec![]);
}

#[test]
fn delete_insert_and_scrolling_region() {
    assert_eq!(run(b"\x1B[P"), vec![TerminalOutput::Delete(1)]);
    assert_eq!(run(b"\x1B[4P"), vec![TerminalOutput::Delete(4)]);
    assert_eq!(run(b"\x1B[@"), vec![TerminalOutput::InsertSpaces(1)]);
    assert_eq!(run(b"\x1B[6@"), vec![TerminalOutput::InsertSpaces(6)]);
    assert_eq!(run(b"\x1B[r"), vec![TerminalOutput::SetScrollingRegion { top: 1, bottom: None }]);
    assert_eq!(run(b"\x1B[5r"), vec![TerminalOutput::SetScrollingRegion { top: 5, bottom: None }]);
    assert_eq!(
        run(b"\x1B[2;20r"),
        vec![TerminalOutput::SetScrollingRegion { top: 2, bottom: Some(20) }]
    );
    assert_eq!(
        run(b"\x1B[;20r"),
        vec![TerminalOutput::SetScrollingRegion { top: 0, bottom: Some(20) }]
    );
}

#[test]
fn repeat_preceding_character() {
    assert_eq!(
        run(b"a\x1B[3b"),
        vec![TerminalOutput::Data(b"a".to_vec()), TerminalOutput::Data(b"aaa".to_vec())]
    );
    assert_eq!(
        run(b"xy\x1B[b"),
        vec![TerminalOutput::Data(b"xy".to_vec()), TerminalOutput::Data(b"y".to_vec())]
    );
    assert_eq!(
        run(b"z\x1B[0b"),
        vec![TerminalOutput::Data(b"z".to_vec()), TerminalOutput::Data(vec![])]
    );
}

#[test]
fn repeat_without_preceding_character_is_suppressed() {
    assert_eq!(run(b"\x1B[3b"), vec![]);
    assert_eq!(run(&[0xC3, 0xA9, 0x1B, b'[', b'2', b'b']), vec![TerminalOutput::Data(vec![0xC3, 0xA9])]);
}

#[test]
fn repeat_uses_the_character_as_it_was_sent() {
    assert_eq!(
        run(b"\x1B(0q\x1B[2b"),
        vec![
            TerminalOutput::ConfigureCharset {
                index: CharsetIndex::G0,
                charset: StandardCharset::SpecialCharacterAndLineDrawing,
            },
            TerminalOutput::Data("\u{2500}".as_bytes().to_vec()),
            TerminalOutput::Data(b"qq".to_vec()),
        ]
    );
}

#[test]
fn unknown_control_sequences_give_no_event() {
    assert_eq!(run(b"\x1B[999z"), vec![]);
    assert_eq!(run(b"\x1B[5n"), vec![]);
    assert_eq!(run(b"\x1B[1$A"), vec![]);
    assert_eq!(run(b"\x1B[ A"), vec![]);
    assert_eq!(run(b"a\x1B[999zb"), vec![
        TerminalOutput::Data(b"a".to_vec()),
        TerminalOutput::Data(b"b".to_vec()),
    ]);
}

#[test]
fn cursor_style() {
    let style = |shape, blinking| vec![TerminalOutput::SetCursorStyle { shape, blinking }];
    assert_eq!(run(b"\x1B[ q"), style(CursorShape::Block, true));
    assert_eq!(run(b"\x1B[0 q"), style(CursorShape::Block, true));
    assert_eq!(run(b"\x1B[1 q"), style(CursorShape::Block, true));
    assert_eq!(run(b"\x1B[2 q"), style(CursorShape::Block, false));
    assert_eq!(run(b"\x1B[3 q"), style(CursorShape::Underline, true));
    assert_eq!(run(b"\x1B[4 q"), style(CursorShape::Underline, false));
    assert_eq!(run(b"\x1B[5 q"), style(CursorShape::Beam, true));
    assert_eq!(run(b"\x1B[6 q"), style(CursorShape::Beam, false));
    assert_eq!(run(b"\x1B[7 q"), style(CursorShape::Block, true));
    assert_eq!(run(b"\x1B[2 p"), vec![]);
}

#[test]
fn private_modes_set() {
    assert_eq!(run(b"\x1B[?25h"), vec![TerminalOutput::SetCursorVisibility(true)]);
    assert_eq!(run(b"\x1B[?1049h"), vec![TerminalOutput::EnterAltScreen]);
    assert_eq!(run(b"\x1B[?1h"), vec![TerminalOutput::SetMode(Mode::Decckm)]);
    assert_eq!(run(b"\x1B[?2004h"), vec![TerminalOutput::SetMode(Mode::BracketedPaste)]);
    assert_eq!(run(b"\x1B[?1037h"), vec![TerminalOutput::SetMode(Mode::ModifyOtherKeys)]);
    assert_eq!(run(b"\x1B[?2026h"), vec![TerminalOutput::BeginSynchronizedUpdate]);
    assert_eq!(run(b"\x1B[?7h"), vec![]);
    assert_eq!(run(b"\x1B[?h"), vec![]);
}

#[test]
fn private_modes_reset() {
    assert_eq!(run(b"\x1B[?25l"), vec![TerminalOutput::SetCursorVisibility(false)]);
    assert_eq!(run(b"\x1B[?1049l"), vec![TerminalOutput::ExitAltScreen]);
    assert_eq!(run(b"\x1B[?1l"), vec![TerminalOutput::ResetMode(Mode::Decckm)]);
    assert_eq!(run(b"\x1B[?2004l"), vec![TerminalOutput::ResetMode(Mode::BracketedPaste)]);
    assert_eq!(run(b"\x1B[?1037l"), vec![TerminalOutput::ResetMode(Mode::ModifyOtherKeys)]);
    assert_eq!(run(b"\x1B[?2026l"), vec![TerminalOutput::EndSynchronizedUpdate]);
    assert_eq!(run(b"\x1B[?7l"), vec![]);
}

#[test]
fn private_marker_is_required_and_exclusive() {
    assert_eq!(run(b"\x1B[25h"), vec![]);
    assert_eq!(run(b"\x1B[25l"), vec![]);
    assert_eq!(run(b"\x1B[?31m"), vec![]);
    assert_eq!(run(b"\x1B[?5A"), vec![]);
}

#[test]
fn sgr_without_parameters_resets() {
    assert_eq!(sgr(b"\x1B[m"), vec![SelectGraphicRendition::Reset]);
    assert_eq!(sgr(b"\x1B[0m"), vec![SelectGraphicRendition::Reset]);
}

#[test]
fn sgr_empty_parameters_count_as_zero() {
    assert_eq!(
        sgr(b"\x1B[;;m"),
        vec![
            SelectGraphicRendition::Reset,
            SelectGraphicRendition::Reset,
            SelectGraphicRendition::Reset,
        ]
    );
    assert_eq!(
        sgr(b"\x1B[1;m"),
        vec![SelectGraphicRendition::Bold, SelectGraphicRendition::Reset]
    );
}

#[test]
fn sgr_indexed_colours() {
    assert_eq!(sgr(b"\x1B[38;5;196m"), vec![SelectGraphicRendition::Foreground8Bit(196)]);
    assert_eq!(sgr(b"\x1B[48;5;21m"), vec![SelectGraphicRendition::Background8Bit(21)]);
    assert_eq!(sgr(b"\x1B[38;5;300m"), vec![SelectGraphicRendition::Foreground8Bit(44)]);
    assert_eq!(
        sgr(b"\x1B[1;38;5;9;4m"),
        vec![
            SelectGraphicRendition::Bold,
            SelectGraphicRendition::Foreground8Bit(9),
            SelectGraphicRendition::Underline,
        ]
    );
}

#[test]
fn sgr_true_colours() {
    assert_eq!(
        sgr(b"\x1B[48;2;1;2;3m"),
        vec![SelectGraphicRendition::BackgroundTrueColor(1, 2, 3)]
    );
    assert_eq!(
        sgr(b"\x1B[38;2;256;511;1024m"),
        vec![SelectGraphicRendition::ForegroundTrueColor(0, 255, 0)]
    );
    assert_eq!(
        sgr(b"\x1B[38;2;10;20;30;48;2;40;50;60;7m"),
        vec![
            SelectGraphicRendition::ForegroundTrueColor(10, 20, 30),
            SelectGraphicRendition::BackgroundTrueColor(40, 50, 60),
            SelectGraphicRendition::Reverse,
        ]
    );
}

#[test]
fn sgr_truncated_extended_colour_is_unknown() {
    assert_eq!(sgr(b"\x1B[38m"), vec![SelectGraphicRendition::Unknown(38)]);
    assert_eq!(sgr(b"\x1B[48m"), vec![SelectGraphicRendition::Unknown(48)]);
    assert_eq!(sgr(b"\x1B[38;5m"), vec![SelectGraphicRendition::Unknown(38)]);
    assert_eq!(sgr(b"\x1B[48;2;1;2m"), vec![SelectGraphicRendition::Unknown(48)]);
    assert_eq!(sgr(b"\x1B[38;2;1m"), vec![SelectGraphicRendition::Unknown(38)]);
    assert_eq!(sgr(b"\x1B[38;2m"), vec![SelectGraphicRendition::Unknown(38)]);
    assert_eq!(
        sgr(b"\x1B[1;38;2;1;2m"),
        vec![SelectGraphicRendition::Bold, SelectGraphicRendition::Unknown(38)]
    );
}

#[test]
fn sgr_unknown_subtype_skips_code_and_subtype() {
    assert_eq!(
        sgr(b"\x1B[38;9;1m"),
        vec![SelectGraphicRendition::Unknown(38), SelectGraphicRendition::Bold]
    );
    assert_eq!(
        sgr(b"\x1B[48;0;31;4m"),
        vec![
            SelectGraphicRendition::Unknown(48),
            SelectGraphicRendition::ForegroundRed,
            SelectGraphicRendition::Underline,
        ]
    );
}

#[test]
fn sgr_code_table() {
    let table = [
        (0, SelectGraphicRendition::Reset),
        (1, SelectGraphicRendition::Bold),
        (2, SelectGraphicRendition::Faint),
        (3, SelectGraphicRendition::Italic),
        (4, SelectGraphicRendition::Underline),
        (5, SelectGraphicRendition::BlinkSlow),
        (6, SelectGraphicRendition::BlinkRapid),
        (7, SelectGraphicRendition::Reverse),
        (8, SelectGraphicRendition::Conceal),
        (22, SelectGraphicRendition::NormalIntensity),
        (23, SelectGraphicRendition::NotItalic),
        (24, SelectGraphicRendition::NotUnderline),
        (28, SelectGraphicRendition::Reveal),
        (30, SelectGraphicRendition::ForegroundBlack),
        (31, SelectGraphicRendition::ForegroundRed),
        (32, SelectGraphicRendition::ForegroundGreen),
        (33, SelectGraphicRendition::ForegroundYellow),
        (34, SelectGraphicRendition::ForegroundBlue),
        (35, SelectGraphicRendition::ForegroundMagenta),
        (36, SelectGraphicRendition::ForegroundCyan),
        (37, SelectGraphicRendition::ForegroundWhite),
        (39, SelectGraphicRendition::ForegroundDefault),
        (40, SelectGraphicRendition::BackgroundBlack),
        (41, SelectGraphicRendition::BackgroundRed),
        (42, SelectGraphicRendition::BackgroundGreen),
        (43, SelectGraphicRendition::BackgroundYellow),
        (44, SelectGraphicRendition::BackgroundBlue),
        (45, SelectGraphicRendition::BackgroundMagenta),
        (46, SelectGraphicRendition::BackgroundCyan),
        (47, SelectGraphicRendition::BackgroundWhite),
        (49, SelectGraphicRendition::BackgroundDefault),
        (90, SelectGraphicRendition::ForegroundBrightBlack),
        (91, SelectGraphicRendition::ForegroundBrightRed),
        (92, SelectGraphicRendition::ForegroundBrightGreen),
        (93, SelectGraphicRendition::ForegroundBrightYellow),
        (94, SelectGraphicRendition::ForegroundBrightBlue),
        (95, SelectGraphicRendition::ForegroundBrightMagenta),
        (96, SelectGraphicRendition::ForegroundBrightCyan),
        (97, SelectGraphicRendition::ForegroundBrightWhite),
        (100, SelectGraphicRendition::BackgroundBrightBlack),
        (101, SelectGraphicRendition::BackgroundBrightRed),
        (102, SelectGraphicRendition::BackgroundBrightGreen),
        (103, SelectGraphicRendition::BackgroundBrightYellow),
        (104, SelectGraphicRendition::BackgroundBrightBlue),
        (105, SelectGraphicRendition::BackgroundBrightMagenta),
        (106, SelectGraphicRendition::BackgroundBrightCyan),
        (107, SelectGraphicRendition::BackgroundBrightWhite),
    ];
    for code in 0usize..=120 {
        let expected = table
            .iter()
            .find(|(known, _)| *known == code)
            .map(|(_, attribute)| *attribute)
            .unwrap_or(SelectGraphicRendition::Unknown(code));
        assert_eq!(SelectGraphicRendition::from_usize(code), expected);
        if code != 38 && code != 48 {
            let sequence = format!("\x1B[{}m", code);
            assert_eq!(sgr(sequence.as_bytes()), vec![expected]);
        }
    }
    assert_eq!(SelectGraphicRendition::from_usize(38), SelectGraphicRendition::Unknown(38));
    assert_eq!(SelectGraphicRendition::from_usize(48), SelectGraphicRendition::Unknown(48));
    assert_eq!(
        SelectGraphicRendition::from_usize(usize::MAX),
        SelectGraphicRendition::Unknown(usize::MAX)
    );
}

#[test]
fn parameter_bytes_other_than_digits_are_skipped() {
    assert_eq!(run(b"\x1B[1:2A"), vec![TerminalOutput::CursorUp(12)]);
    assert_eq!(run(b"\x1B[<5A"), vec![TerminalOutput::CursorUp(5)]);
    assert_eq!(run(b"\x1B[=>3B"), vec![TerminalOutput::CursorDown(3)]);
}

#[test]
fn invalid_control_sequences_are_ignored_until_their_final() {
    assert_eq!(run(b"\x1B[1[31mx"), vec![TerminalOutput::Data(b"x".to_vec())]);
    assert_eq!(run(b"\x1B[ 1qx"), vec![TerminalOutput::Data(b"x".to_vec())]);
    assert_eq!(run(&[0x1B, b'[', 0x80, b'1', b'm', b'x']), vec![TerminalOutput::Data(b"x".to_vec())]);
    assert_eq!(run(b"\x1B[1Xx\x1B[2^y\x1B[3_z"), vec![]);
}

#[test]
fn escape_restarts_a_sequence() {
    assert_eq!(run(b"\x1B[31\x1B[1m"), vec![TerminalOutput::Sgr(SelectGraphicRendition::Bold)]);
    assert_eq!(run(b"\x1B\x1B[5A"), vec![TerminalOutput::CursorUp(5)]);
}

#[test]
fn parameters_do_not_leak_into_the_next_sequence() {
    let mut parser = AnsiParser::new();
    assert_eq!(parser.push(b"\x1B[5;6H"), vec![TerminalOutput::SetCursorPos { x: Some(6), y: Some(5) }]);
    assert_eq!(parser.push(b"\x1B[H"), vec![TerminalOutput::SetCursorPos { x: Some(1), y: Some(1) }]);
    assert_eq!(parser.push(b"\x1B[?25h"), vec![TerminalOutput::SetCursorVisibility(true)]);
    assert_eq!(parser.push(b"\x1B[A"), vec![TerminalOutput::CursorUp(1)]);
    assert_eq!(parser.push(b"\x1B[ q\x1B[C"), vec![
        TerminalOutput::SetCursorStyle { shape: CursorShape::Block, blinking: true },
        TerminalOutput::CursorForward(1),
    ]);
}

#[test]
fn sos_pm_and_apc_strings_are_ignored() {
    assert_eq!(run(b"\x1B_hello\x07 world\x1B\\"), vec![]);
    assert_eq!(run(b"\x1BXhello\x1B\\"), vec![]);
    assert_eq!(run(b"\x1B^hello\x1B\\"), vec![]);
    assert_eq!(
        run(b"a\x1B_x\x1B\\b"),
        vec![TerminalOutput::Data(b"a".to_vec()), TerminalOutput::Data(b"b".to_vec())]
    );
}

#[test]
fn device_control_strings() {
    assert_eq!(
        run(b"\x1BPq#0;2;0;0;0\x1B\\"),
        vec![TerminalOutput::DeviceControlString {
            params: vec![],
            intermediates: vec![],
            data: b"q#0;2;0;0;0".to_vec(),
        }]
    );
    assert_eq!(
        run(b"\x1BP1;;3+p\x07x\x1B\\"),
        vec![TerminalOutput::DeviceControlString {
            params: vec![1, 0, 3],
            intermediates: vec![b'+'],
            data: b"p\x07x".to_vec(),
        }]
    );
    assert_eq!(
        run(b"\x1BP5;q\x1B\\"),
        vec![TerminalOutput::DeviceControlString {
            params: vec![5, 0],
            intermediates: vec![],
            data: b"q".to_vec(),
        }]
    );
}

#[test]
fn device_control_string_in_chunks() {
    let mut parser = AnsiParser::new();
    assert_eq!(parser.push(b"\x1BP1$"), vec![]);
    assert_eq!(parser.push(b"qabc"), vec![]);
    assert_eq!(parser.push(b"def\x1B"), vec![TerminalOutput::DeviceControlString {
        params: vec![1],
        intermediates: vec![b'$'],
        data: b"qabcdef".to_vec(),
    }]);
    assert_eq!(parser.push(b"\\ok"), vec![TerminalOutput::Data(b"ok".to_vec())]);
}
