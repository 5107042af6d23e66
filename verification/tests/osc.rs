use ansi_parser::osc::{find_id_bytes, hyperlink_id_of, hyperlink_output, osc_output};
use ansi_parser::text::{find_byte, parse_decimal};
use ansi_parser::{AnsiParser, TerminalOutput};

fn osc(bytes: &[u8]) -> Vec<TerminalOutput> {
    AnsiParser::new().push(bytes)
}

fn link(id: Option<&str>, uri: &str) -> TerminalOutput {
    TerminalOutput::SetHyperlink { id: id.map(|text| text.to_string()), uri: uri.to_string() }
}

#[test]
fn osc_ended_by_string_terminator() {
    assert_eq!(
        osc(b"\x1B]2;Window\x1B\\"),
        vec![TerminalOutput::Osc { command: 2, payload: b"Window".to_vec() }]
    );
}

#[test]
fn osc_payload_keeps_later_semicolons() {
    assert_eq!(
        osc(b"\x1B]52;c;aGVsbG8=\x07"),
        vec![TerminalOutput::Osc { command: 52, payload: b"c;aGVsbG8=".to_vec() }]
    );
}

#[test]
fn osc_without_separator_is_command_zero() {
    assert_eq!(
        osc(b"\x1B]hello\x07"),
        vec![TerminalOutput::Osc { command: 0, payload: b"hello".to_vec() }]
    );
    assert_eq!(
        osc(b"\x1B]112\x07"),
        vec![TerminalOutput::Osc { command: 0, payload: b"112".to_vec() }]
    );
    assert_eq!(
        osc(b"\x1B]8\x07"),
        vec![TerminalOutput::Osc { command: 0, payload: b"8".to_vec() }]
    );
}

#[test]
fn osc_command_that_is_no_number_is_zero() {
    assert_eq!(
        osc(b"\x1B]abc;x\x07"),
        vec![TerminalOutput::Osc { command: 0, payload: b"x".to_vec() }]
    );
    assert_eq!(
        osc(b"\x1B];x\x07"),
        vec![TerminalOutput::Osc { command: 0, payload: b"x".to_vec() }]
    );
    assert_eq!(
        osc(b"\x1B]1 ;x\x07"),
        vec![TerminalOutput::Osc { command: 0, payload: b"x".to_vec() }]
    );
    assert_eq!(
        osc(b"\x1B]99999999999999999999999999;x\x07"),
        vec![TerminalOutput::Osc { command: 0, payload: b"x".to_vec() }]
    );
}

#[test]
fn osc_command_with_sign_and_zeros() {
    assert_eq!(
        osc(b"\x1B]+7;x\x07"),
        vec![TerminalOutput::Osc { command: 7, payload: b"x".to_vec() }]
    );
    assert_eq!(
        osc(b"\x1B]007;\x07"),
        vec![TerminalOutput::Osc { command: 7, payload: vec![] }]
    );
}

#[test]
fn empty_osc_gives_no_event() {
    assert_eq!(osc(b"\x1B]\x07"), vec![]);
    assert_eq!(osc(b"\x1B]\x1B\\"), vec![]);
}

#[test]
fn osc_payload_may_hold_any_bytes() {
    assert_eq!(
        osc(&[0x1B, b']', b'1', b';', 0xFF, 0xFE, b'[', b'P', 0x07]),
        vec![TerminalOutput::Osc { command: 1, payload: vec![0xFF, 0xFE, b'[', b'P'] }]
    );
}

#[test]
fn osc_in_chunks() {
    let mut parser = AnsiParser::new();
    assert_eq!(parser.push(b"a\x1B]0;Ti"), vec![TerminalOutput::Data(b"a".to_vec())]);
    assert_eq!(parser.push(b"tle"), vec![]);
    assert_eq!(
        parser.push(b"\x07b"),
        vec![
            TerminalOutput::Osc { command: 0, payload: b"Title".to_vec() },
            TerminalOutput::Data(b"b".to_vec()),
        ]
    );
}

#[test]
fn hyperlink_with_and_without_id() {
    assert_eq!(osc(b"\x1B]8;;https://example.com\x07"), vec![link(None, "https://example.com")]);
    assert_eq!(
        osc(b"\x1B]8;id=abc;https://example.com\x1B\\"),
        vec![link(Some("abc"), "https://example.com")]
    );
    assert_eq!(
        osc(b"\x1B]8;foo=bar:id=x1:baz=1;file:///tmp/a;b\x07"),
        vec![link(Some("x1"), "file:///tmp/a;b")]
    );
    assert_eq!(osc(b"\x1B]8;id=;u\x07"), vec![link(Some(""), "u")]);
    assert_eq!(osc(b"\x1B]8;xid=1:ID=2;u\x07"), vec![link(None, "u")]);
    assert_eq!(osc(b"\x1B]8;id=a:id=b;u\x07"), vec![link(Some("a"), "u")]);
}

#[test]
fn hyperlink_text_is_decoded_as_utf8() {
    assert_eq!(
        osc("\x1B]8;id=\u{00E9}t\u{00E9};https://example.com/\u{2603}\x07".as_bytes()),
        vec![link(Some("\u{00E9}t\u{00E9}"), "https://example.com/\u{2603}")]
    );
}

#[test]
fn hyperlink_is_cleared_by_empty_uri() {
    assert_eq!(osc(b"\x1B]8;;\x07"), vec![TerminalOutput::ClearHyperlink]);
    assert_eq!(osc(b"\x1B]8;id=abc;\x07"), vec![TerminalOutput::ClearHyperlink]);
    assert_eq!(osc(b"\x1B]8;\x07"), vec![TerminalOutput::ClearHyperlink]);
}

#[test]
fn malformed_hyperlinks_are_dropped() {
    assert_eq!(osc(b"\x1B]8;https://example.com\x07"), vec![]);
    assert_eq!(osc(&[0x1B, b']', b'8', b';', b';', b'a', 0xFF, 0x07]), vec![]);
    assert_eq!(osc(&[0x1B, b']', b'8', b';', b';', 0xC3, 0x07]), vec![]);
}

#[test]
fn hyperlink_parameters_that_are_not_utf8_give_no_id() {
    assert_eq!(
        osc(&[0x1B, b']', b'8', b';', b'i', b'd', b'=', b'a', b':', 0xFF, b';', b'u', 0x07]),
        vec![link(None, "u")]
    );
}

#[test]
fn osc_output_reads_a_buffer() {
    assert_eq!(osc_output(b""), None);
    assert_eq!(
        osc_output(b"0;t"),
        Some(TerminalOutput::Osc { command: 0, payload: b"t".to_vec() })
    );
    assert_eq!(osc_output(b"8;;u"), Some(link(None, "u")));
    assert_eq!(osc_output(b"8;"), Some(TerminalOutput::ClearHyperlink));
    assert_eq!(osc_output(b"8;x"), None);
    assert_eq!(hyperlink_output(b""), Some(TerminalOutput::ClearHyperlink));
    assert_eq!(hyperlink_output(b"id=7;u"), Some(link(Some("7"), "u")));
    assert_eq!(hyperlink_output(b"no separator"), None);
}

#[test]
fn hyperlink_id_segments() {
    assert_eq!(find_id_bytes(b""), None);
    assert_eq!(find_id_bytes(b"id="), Some(vec![]));
    assert_eq!(find_id_bytes(b"id=a:b"), Some(b"a".to_vec()));
    assert_eq!(find_id_bytes(b"a=b:c=d"), None);
    assert_eq!(find_id_bytes(b"a=b::id=q"), Some(b"q".to_vec()));
    assert_eq!(find_id_bytes(b"a:id"), None);
    assert_eq!(hyperlink_id_of(b""), None);
    assert_eq!(hyperlink_id_of(b"id=abc"), Some("abc".to_string()));
    assert_eq!(hyperlink_id_of(&[b'i', b'd', b'=', 0xFF]), None);
}

#[test]
fn find_byte_gives_the_first_occurrence() {
    assert_eq!(find_byte(b"", b';'), None);
    assert_eq!(find_byte(b"abc", b';'), None);
    assert_eq!(find_byte(b";", b';'), Some(0));
    assert_eq!(find_byte(b"ab;cd;ef", b';'), Some(2));
    assert_eq!(find_byte(b"abc;", b';'), Some(3));
}

#[test]
fn parse_decimal_reads_unsigned_numbers() {
    assert_eq!(parse_decimal(b"0"), Some(0));
    assert_eq!(parse_decimal(b"8"), Some(8));
    assert_eq!(parse_decimal(b"0042"), Some(42));
    assert_eq!(parse_decimal(b"+42"), Some(42));
    assert_eq!(parse_decimal(b"1337"), Some(1337));
    assert_eq!(parse_decimal(b""), None);
    assert_eq!(parse_decimal(b"+"), None);
    assert_eq!(parse_decimal(b"-1"), None);
    assert_eq!(parse_decimal(b"++1"), None);
    assert_eq!(parse_decimal(b"1+"), None);
    assert_eq!(parse_decimal(b"12a"), None);
    assert_eq!(parse_decimal(b" 1"), None);
    assert_eq!(parse_decimal(&[0xFF]), None);
}

#[test]
fn parse_decimal_at_the_limit() {
    let max = usize::MAX.to_string();
    assert_eq!(parse_decimal(max.as_bytes()), Some(usize::MAX));
    let mut over = max.clone().into_bytes();
    let last = over.len() - 1;
    over[last] += 1;
    assert_eq!(parse_decimal(&over), None);
    let mut longer = max.into_bytes();
    longer.push(b'0');
    assert_eq!(parse_decimal(&longer), None);
    assert_eq!(parse_decimal(b"99999999999999999999999999999999999999999"), None);
}

#[test]
fn parse_decimal_agrees_with_the_standard_parser() {
    let samples: [&[u8]; 12] = [
        b"0", b"1", b"+0", b"+", b"", b"-0", b"18446744073709551615", b"18446744073709551616",
        b"000000000000000000000000001", b"12 ", b"1_000", b"+-1",
    ];
    for sample in samples {
        let expected = std::str::from_utf8(sample).ok().and_then(|text| text.parse::<usize>().ok());
        assert_eq!(parse_decimal(sample), expected);
    }
}
