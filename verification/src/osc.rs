//! Operating system commands: the command number, the payload and the
//! hyperlink sub-protocol.

use vstd::prelude::*;
use vstd::slice::{slice_subrange, slice_to_vec};
use crate::definitions::TerminalOutput;
use crate::laws::lemma_id_is_utf8;
use crate::model::{has_id_prefix, hyperlink_events, hyperlink_id, id_bytes, osc_events};
use crate::text::{find_byte, lemma_position_bounds, parse_decimal, position, string_from_utf8};

verus! {

/// Finds the bytes after `id=` in the first of the segments between colons
/// that begins with `id=`.
pub fn find_id_bytes(params: &[u8]) -> (found: Option<Vec<u8>>)
    ensures
        match found {
            Some(bytes) => id_bytes(params@) == Some(bytes@),
            None => id_bytes(params@) is None,
        },
{
    let mut start: usize = 0;
    assert(params@.subrange(0, params@.len() as int) =~= params@);
    loop
        invariant
            start <= params@.len(),
            id_bytes(params@) == id_bytes(params@.subrange(start as int, params@.len() as int)),
        decreases params@.len() - start,
    {
        let rest = slice_subrange(params, start, params.len());
        let end: usize = match find_byte(rest, 0x3A) {
            Some(e) => e,
            None => rest.len(),
        };
        proof {
            lemma_position_bounds(rest@, 0x3A);
        }
        assert(end == position(rest@, 0x3A));
        if end >= 3 && rest[0] == 0x69 && rest[1] == 0x64 && rest[2] == 0x3D {
            assert(has_id_prefix(rest@.subrange(0, end as int)));
            return Some(slice_to_vec(slice_subrange(rest, 3, end)));
        }
        assert(!has_id_prefix(rest@.subrange(0, end as int)));
        if end == rest.len() {
            return None;
        }
        assert(rest@.subrange(end + 1, rest@.len() as int) =~= params@.subrange(
            start + end + 1,
            params@.len() as int,
        ));
        start = start + end + 1;
    }
}

/// Reads the `id` of a hyperlink from its parameters.
pub fn hyperlink_id_of(params: &[u8]) -> (id: Option<String>)
    ensures
        match id {
            Some(text) => hyperlink_id(params@) == Some(text@),
            None => hyperlink_id(params@) is None,
        },
{
    if params.len() == 0 {
        return None;
    }
    if string_from_utf8(slice_to_vec(params)).is_none() {
        return None;
    }
    proof {
        lemma_id_is_utf8(params@);
    }
    match find_id_bytes(params) {
        Some(bytes) => string_from_utf8(bytes),
        None => None,
    }
}

/// Reads a hyperlink command from its payload, `params ; uri`.
pub fn hyperlink_output(payload: &[u8]) -> (event: Option<TerminalOutput>)
    ensures
        hyperlink_events(payload@) == match event {
            Some(e) => seq![e@],
            None => Seq::empty(),
        },
        event matches Some(e) ==> e is ClearHyperlink || e is SetHyperlink,
{
    if payload.len() == 0 {
        return Some(TerminalOutput::ClearHyperlink);
    }
    let split: usize = match find_byte(payload, 0x3B) {
        Some(i) => i,
        None => {
            return None;
        },
    };
    let uri_bytes = slice_subrange(payload, split + 1, payload.len());
    let uri = match string_from_utf8(slice_to_vec(uri_bytes)) {
        Some(text) => text,
        None => {
            return None;
        },
    };
    if uri_bytes.len() == 0 {
        return Some(TerminalOutput::ClearHyperlink);
    }
    let id = hyperlink_id_of(slice_subrange(payload, 0, split));
    Some(TerminalOutput::SetHyperlink { id, uri })
}

/// Reads an operating system command from the bytes between its
/// introducer and its terminator.
pub fn osc_output(buffer: &[u8]) -> (event: Option<TerminalOutput>)
    ensures
        osc_events(buffer@) == match event {
            Some(e) => seq![e@],
            None => Seq::empty(),
        },
        event matches Some(e) ==> e is ClearHyperlink || e is SetHyperlink || e is Osc,
{
    if buffer.len() == 0 {
        return None;
    }
    match find_byte(buffer, 0x3B) {
        Some(split) => {
            let command: usize = match parse_decimal(slice_subrange(buffer, 0, split)) {
                Some(n) => n,
                None => 0,
            };
            let payload = slice_subrange(buffer, split + 1, buffer.len());
            if command == 8 {
                hyperlink_output(payload)
            } else {
                Some(TerminalOutput::Osc { command, payload: slice_to_vec(payload) })
            }
        },
        None => Some(TerminalOutput::Osc { command: 0, payload: slice_to_vec(buffer) }),
    }
}

} // verus!
