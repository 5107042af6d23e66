use ansi_parser::{AnsiParser, SelectGraphicRendition, TerminalOutput};

fn parse(bytes: &[u8]) -> Vec<TerminalOutput> {
    AnsiParser::new().push(bytes)
}

#[test]
fn sgr_red_is_parsed() {
    assert_eq!(
        parse(b"\x1B[31m"),
        vec![TerminalOutput::Sgr(SelectGraphicRendition::ForegroundRed)]
    );
}

#[test]
fn text_between_sgr_sequences() {
    assert_eq!(
        parse(b"Hello\x1B[31mRed\x1B[0mWorld"),
        vec![
            TerminalOutput::Data(b"Hello".to_vec()),
            TerminalOutput::Sgr(SelectGraphicRendition::ForegroundRed),
            TerminalOutput::Data(b"Red".to_vec()),
            TerminalOutput::Sgr(SelectGraphicRendition::Reset),
            TerminalOutput::Data(b"World".to_vec()),
        ]
    );
}

#[test]
fn cursor_position_row_then_column() {
    assert_eq!(
        parse(b"\x1B[10;20H"),
        vec![TerminalOutput::SetCursorPos { x: Some(20), y: Some(10) }]
    );
}

#[test]
fn osc_title_ended_by_bel() {
    assert_eq!(
        parse(b"\x1B]0;Title\x07"),
        vec![TerminalOutput::Osc { command: 0, payload: b"Title".to_vec() }]
    );
}

#[test]
fn device_control_string_keeps_final_byte_in_data() {
    assert_eq!(
        parse(b"\x1BP1;2$qData\x1B\\"),
        vec![TerminalOutput::DeviceControlString {
            params: vec![1, 2],
            intermediates: vec![0x24],
            data: b"qData".to_vec(),
        }]
    );
}

#[test]
fn foreground_true_color() {
    assert_eq!(
        parse(b"\x1B[38;2;255;128;0m"),
        vec![TerminalOutput::Sgr(SelectGraphicRendition::ForegroundTrueColor(255, 128, 0))]
    );
}

#[test]
fn byte_at_a_time_sgr() {
    let mut parser = AnsiParser::new();
    let mut events = Vec::new();
    for byte in b"\x1B[1;31;42m" {
        events.extend(parser.push(&[*byte]));
    }
    assert_eq!(
        events,
        vec![
            TerminalOutput::Sgr(SelectGraphicRendition::Bold),
            TerminalOutput::Sgr(SelectGraphicRendition::ForegroundRed),
            TerminalOutput::Sgr(SelectGraphicRendition::BackgroundGreen),
        ]
    );
}

#[test]
fn synchronized_update_in_one_chunk() {
    assert_eq!(
        parse(b"\x1B[?2026h\x1B[31mX\x1B[?2026l"),
        vec![
            TerminalOutput::BeginSynchronizedUpdate,
            TerminalOutput::Sgr(SelectGraphicRendition::ForegroundRed),
            TerminalOutput::Data(b"X".to_vec()),
            TerminalOutput::EndSynchronizedUpdate,
        ]
    );
}

#[test]
fn synchronized_update_delivers_interior_at_close() {
    let mut parser = AnsiParser::new();
    assert_eq!(
        parser.push(b"\x1B[?2026h\x1B[31mX"),
        vec![TerminalOutput::BeginSynchronizedUpdate]
    );
    assert_eq!(parser.push(b"more"), vec![]);
    assert_eq!(
        parser.push(b"\x1B[?2026l"),
        vec![
            TerminalOutput::Sgr(SelectGraphicRendition::ForegroundRed),
            TerminalOutput::Data(b"X".to_vec()),
            TerminalOutput::Data(b"more".to_vec()),
            TerminalOutput::EndSynchronizedUpdate,
        ]
    );
    assert_eq!(parser.push(b"after"), vec![TerminalOutput::Data(b"after".to_vec())]);
}
