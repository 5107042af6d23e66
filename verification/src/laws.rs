//! Laws of the parser: what holds of whole runs of the machine and of the
//! calls that feed it.

use vstd::prelude::*;
use vstd::utf8::{encode_scalar, is_char_boundary_start_end_of_seq, valid_utf8, valid_utf8_split};
use crate::definitions::{Event, StandardCharset};
use crate::model::{
    has_id_prefix, id_bytes, with_digit, Machine, ParserModel, Pushed, Sink, Step,
};
use crate::text::{
    all_digits, digits_value, is_digit, lemma_ascii_is_a_boundary, lemma_position_bounds,
    lemma_utf8_between_boundaries, position,
};
use crate::tables::{class_of, transition, Action, ByteClass, State};

verus! {

/// The machine after two sequences of bytes in a row.
pub open spec fn fed_twice(machine: Machine, first: Seq<u8>, second: Seq<u8>) -> Step {
    let a = machine.feed(first);
    let b = a.machine.feed(second);
    Step { machine: b.machine, events: a.events + b.events }
}

/// Feeding is sequential: the machine takes a sequence of bytes as it takes
/// a prefix of it and then the rest, and the events of the prefix come
/// before the events of the rest.
pub proof fn lemma_feed_concat(machine: Machine, first: Seq<u8>, second: Seq<u8>)
    ensures
        machine.feed(first + second) == fed_twice(machine, first, second),
    decreases second.len(),
{
    let a = machine.feed(first);
    if second.len() == 0 {
        assert(first + second =~= first);
        assert(a.events + Seq::<Event>::empty() =~= a.events);
    } else {
        let shorter = second.drop_last();
        assert((first + second).drop_last() =~= first + shorter);
        assert((first + second).last() == second.last());
        lemma_feed_concat(machine, first, shorter);
        let b = a.machine.feed(shorter);
        let last = b.machine.step(second.last());
        assert((a.events + b.events) + last.events =~= a.events + (b.events + last.events));
    }
}

/// The machine takes a single byte as one step.
pub proof fn lemma_feed_one(machine: Machine, byte: u8)
    ensures
        machine.feed(seq![byte]) == machine.step(byte),
{
    assert(seq![byte].drop_last() =~= Seq::<u8>::empty());
    assert(machine.feed(Seq::<u8>::empty()).events =~= Seq::<Event>::empty());
    let step = machine.step(byte);
    assert(Seq::<Event>::empty() + step.events =~= step.events);
}

/// What a sink has delivered before does not change what it does next:
/// the depth and the waiting events are those of a sink that starts with
/// nothing delivered, and the new deliveries follow the old ones.
pub proof fn lemma_delivered_is_a_prefix(sink: Sink, events: Seq<Event>)
    ensures
        ({
            let fresh = Sink { delivered: Seq::empty(), ..sink }.accept_all(events);
            sink.accept_all(events) == Sink {
                delivered: sink.delivered + fresh.delivered,
                ..fresh
            }
        }),
    decreases events.len(),
{
    let empty = Sink { delivered: Seq::empty(), ..sink };
    if events.len() == 0 {
        assert(sink.delivered + Seq::<Event>::empty() =~= sink.delivered);
    } else {
        lemma_delivered_is_a_prefix(sink, events.drop_last());
        let before = sink.accept_all(events.drop_last());
        let fresh = empty.accept_all(events.drop_last());
        let event = events.last();
        assert(before.accept(event).delivered =~= sink.delivered + fresh.accept(event).delivered);
    }
}

/// A step keeps the invariant of the machine.
pub proof fn lemma_step_preserves_wf(machine: Machine, byte: u8)
    requires
        machine.wf(),
    ensures
        machine.step(byte).machine.wf(),
{
}

/// Feeding keeps the invariant of the machine.
pub proof fn lemma_feed_preserves_wf(machine: Machine, bytes: Seq<u8>)
    requires
        machine.wf(),
    ensures
        machine.feed(bytes).machine.wf(),
    decreases bytes.len(),
{
    if bytes.len() > 0 {
        lemma_feed_preserves_wf(machine, bytes.drop_last());
        lemma_step_preserves_wf(machine.feed(bytes.drop_last()).machine, bytes.last());
    }
}

/// A sink holds waiting events only while a synchronized update is open,
/// whatever events it accepts.
pub proof fn lemma_nothing_waits_outside_sync(sink: Sink, events: Seq<Event>)
    requires
        sink.depth == 0 ==> sink.pending.len() == 0,
    ensures
        sink.accept_all(events).depth == 0 ==> sink.accept_all(events).pending.len() == 0,
    decreases events.len(),
{
    if events.len() > 0 {
        lemma_nothing_waits_outside_sync(sink, events.drop_last());
    }
}

/// A call keeps the invariant of the parser, and leaves no printable
/// bytes pending.
pub proof fn lemma_pushed_preserves_wf(parser: ParserModel, bytes: Seq<u8>)
    requires
        parser.wf(),
    ensures
        parser.pushed(bytes).parser.wf(),
        parser.pushed(bytes).parser.machine.data_buffer.len() == 0,
{
    lemma_feed_preserves_wf(parser.machine, bytes);
    lemma_nothing_waits_outside_sync(parser.sink(), parser.machine.run(bytes).events);
}

/// A new parser meets the invariant.
pub proof fn lemma_initial_wf()
    ensures
        ParserModel::initial().wf(),
{
}

/// True for the bytes that are printed in `Ground`: all but the C0
/// controls, DEL and ESC.
pub open spec fn printable(byte: u8) -> bool {
    class_of(byte) != ByteClass::Exe && class_of(byte) != ByteClass::Esc
}

/// A machine that has its pending printable bytes flushed before a chunk
/// runs as one that has not, where the chunk does not go on with the pending
/// bytes: the pending bytes become the first event either way.
pub proof fn lemma_flush_before_run(machine: Machine, bytes: Seq<u8>)
    requires
        machine.wf(),
        machine.data_buffer.len() == 0 || bytes.len() == 0 || !printable(bytes[0]),
    ensures
        machine.without_data().run(bytes).machine == machine.run(bytes).machine,
        machine.pending_data() + machine.without_data().run(bytes).events == machine.run(
            bytes,
        ).events,
{
    let flushed = machine.without_data();
    if machine.data_buffer.len() == 0 {
        assert(flushed.data_buffer =~= machine.data_buffer);
        assert(flushed == machine);
        assert(machine.pending_data() + machine.run(bytes).events =~= machine.run(bytes).events);
    } else if bytes.len() == 0 {
        assert(flushed.without_data().data_buffer =~= machine.without_data().data_buffer);
        assert(machine.pending_data() + flushed.run(bytes).events =~= machine.run(bytes).events);
    } else {
        let head = seq![bytes[0]];
        let rest = bytes.drop_first();
        assert(head + rest =~= bytes);
        lemma_feed_concat(machine, head, rest);
        lemma_feed_concat(flushed, head, rest);
        lemma_feed_one(machine, bytes[0]);
        lemma_feed_one(flushed, bytes[0]);
        let with = machine.step(bytes[0]);
        let without = flushed.step(bytes[0]);
        assert(machine.state == State::Ground);
        assert(flushed.without_data() == flushed);
        assert(flushed.pending_data() =~= Seq::<Event>::empty());
        assert(without.machine == with.machine);
        assert(machine.pending_data() + without.events =~= with.events);
        let tail = with.machine.feed(rest);
        assert(machine.pending_data() + ((without.events + tail.events)
            + tail.machine.pending_data()) =~= (with.events + tail.events)
            + tail.machine.pending_data());
    }
}

/// Chunk invariance: feeding a sequence of bytes in two calls gives the
/// events and leaves the parser that one call with the whole sequence does,
/// wherever the sequence is split, inside an escape sequence too. The one
/// exception is a split inside a run of printable bytes, which a call on
/// each part reports as two `Data` events: where printable bytes are pending
/// after the first part, the second part has to be empty or to begin with a
/// control byte.
pub proof fn lemma_chunk_invariance(parser: ParserModel, first: Seq<u8>, second: Seq<u8>)
    requires
        parser.wf(),
        parser.machine.feed(first).machine.data_buffer.len() == 0 || second.len() == 0
            || !printable(second[0]),
    ensures
        parser.pushed(first).parser.pushed(second).parser == parser.pushed(first + second).parser,
        parser.pushed(first).events + parser.pushed(first).parser.pushed(second).events
            == parser.pushed(first + second).events,
{
    let machine = parser.machine;
    let fed = machine.feed(first);
    let ran_first = machine.run(first);
    let sink_first = parser.sink().accept_all(ran_first.events);
    let between = parser.pushed(first).parser;
    let ran_second = between.machine.run(second);
    lemma_feed_preserves_wf(machine, first);
    lemma_feed_concat(machine, first, second);
    lemma_flush_before_run(fed.machine, second);
    let whole = machine.run(first + second);
    assert(whole.machine == ran_second.machine);
    assert(whole.events =~= ran_first.events + ran_second.events) by {
        let rest = fed.machine.feed(second);
        assert((fed.events + rest.events) + rest.machine.pending_data() =~= fed.events + (
        rest.events + rest.machine.pending_data()));
        assert(fed.events + (fed.machine.pending_data() + ran_second.events) =~= (fed.events
            + fed.machine.pending_data()) + ran_second.events);
    }
    parser.sink().lemma_accept_concat(ran_first.events, ran_second.events);
    lemma_delivered_is_a_prefix(sink_first, ran_second.events);
    assert(Sink { delivered: Seq::empty(), ..sink_first } == between.sink());
}

/// True where the last of the bytes ends an escape sequence or a control
/// sequence: the machine dispatches on it.
pub open spec fn ends_with_dispatch(machine: Machine, bytes: Seq<u8>) -> bool {
    bytes.len() > 0 && ({
        let before = machine.feed(bytes.drop_last()).machine;
        let action = transition(before.state, class_of(bytes.last())).1;
        action == Action::EscDispatch || action == Action::CsiDispatch
    })
}

/// Ground quiescence: after a call whose last byte ends an escape sequence
/// or a control sequence, the machine is in `Ground` and holds no
/// parameters, no digits of a parameter, no intermediates and no pending
/// printable bytes.
pub proof fn lemma_ground_quiescence(parser: ParserModel, bytes: Seq<u8>)
    requires
        ends_with_dispatch(parser.machine, bytes),
    ensures
        ({
            let machine = parser.pushed(bytes).parser.machine;
            &&& machine.state == State::Ground
            &&& machine.params.len() == 0
            &&& machine.current_param is None
            &&& machine.intermediates.len() == 0
            &&& machine.data_buffer.len() == 0
        }),
{
}

/// The bytes that a printable byte adds to the pending data: the UTF-8
/// encoding of its translation where it is ASCII, and else the byte itself.
pub open spec fn glyph_bytes(charset: StandardCharset, byte: u8) -> Seq<u8> {
    if byte < 0x80 {
        encode_scalar(charset.translate(byte as char) as u32)
    } else {
        seq![byte]
    }
}

/// The bytes that a run of printable bytes adds to the pending data.
pub open spec fn rendered(charset: StandardCharset, bytes: Seq<u8>) -> Seq<u8>
    decreases bytes.len(),
{
    if bytes.len() == 0 {
        Seq::empty()
    } else {
        rendered(charset, bytes.drop_last()) + glyph_bytes(charset, bytes.last())
    }
}

/// True where every byte is printable.
pub open spec fn all_printable(bytes: Seq<u8>) -> bool {
    forall|i: int| 0 <= i < bytes.len() ==> printable(#[trigger] bytes[i])
}

/// In `Ground`, a run of printable bytes produces no event: all its bytes
/// are added to the pending data, and nothing else changes but the
/// character that a repeat would print.
pub proof fn lemma_printable_run_accumulates(machine: Machine, bytes: Seq<u8>)
    requires
        machine.state == State::Ground,
        all_printable(bytes),
    ensures
        machine.feed(bytes).events == Seq::<Event>::empty(),
        machine.feed(bytes).machine == (Machine {
            data_buffer: machine.data_buffer + rendered(machine.charset(), bytes),
            preceding_char: machine.feed(bytes).machine.preceding_char,
            ..machine
        }),
    decreases bytes.len(),
{
    if bytes.len() == 0 {
        assert(machine.data_buffer + rendered(machine.charset(), bytes) =~= machine.data_buffer);
    } else {
        let shorter = bytes.drop_last();
        assert(all_printable(shorter)) by {
            assert forall|i: int| 0 <= i < shorter.len() implies printable(
                #[trigger] shorter[i],
            ) by {
                assert(shorter[i] == bytes[i]);
            }
        }
        lemma_printable_run_accumulates(machine, shorter);
        assert(printable(bytes[bytes.len() - 1]));
        let before = machine.feed(shorter).machine;
        let after = before.step(bytes.last()).machine;
        assert(after.data_buffer =~= machine.data_buffer + rendered(machine.charset(), bytes));
        assert(machine.feed(bytes).events =~= Seq::<Event>::empty());
    }
}

/// A run of printable bytes adds at least one byte for each of its bytes.
pub proof fn lemma_rendered_len(charset: StandardCharset, bytes: Seq<u8>)
    ensures
        rendered(charset, bytes).len() >= bytes.len(),
    decreases bytes.len(),
{
    if bytes.len() > 0 {
        lemma_rendered_len(charset, bytes.drop_last());
    }
}

/// Data coalescence: outside a synchronized update, a chunk that is one run
/// of printable bytes gives a single `Data` event, which holds the whole run.
pub proof fn lemma_data_coalescence(parser: ParserModel, bytes: Seq<u8>)
    requires
        parser.sync_depth == 0,
        parser.machine.state == State::Ground,
        bytes.len() > 0,
        all_printable(bytes),
    ensures
        parser.pushed(bytes).events == seq![
            Event::Data(
                parser.machine.data_buffer + rendered(parser.machine.charset(), bytes),
            ),
        ],
{
    let machine = parser.machine;
    lemma_printable_run_accumulates(machine, bytes);
    lemma_rendered_len(machine.charset(), bytes);
    let data = Event::Data(machine.data_buffer + rendered(machine.charset(), bytes));
    assert(machine.run(bytes).events =~= seq![data]);
    parser.sink().lemma_accept_one(data);
    assert(parser.sink().accept(data).delivered =~= seq![data]);
}

/// True where no event opens a synchronized update.
pub open spec fn opens_no_sync(events: Seq<Event>) -> bool {
    forall|i: int| 0 <= i < events.len() ==> !(#[trigger] events[i] is BeginSynchronizedUpdate)
}

/// True where no event opens or closes a synchronized update.
pub open spec fn has_no_marker(events: Seq<Event>) -> bool {
    forall|i: int|
        0 <= i < events.len() ==> !(#[trigger] events[i] is BeginSynchronizedUpdate) && !(
        events[i] is EndSynchronizedUpdate)
}

/// Outside a synchronized update, and as long as none is opened, a sink
/// delivers every event at once: what it has delivered grows by the events
/// it accepts, in their order.
pub proof fn lemma_delivery_outside_sync(sink: Sink, events: Seq<Event>)
    requires
        sink.depth == 0,
        opens_no_sync(events),
    ensures
        sink.accept_all(events) == (Sink { delivered: sink.delivered + events, ..sink }),
    decreases events.len(),
{
    if events.len() == 0 {
        assert(sink.delivered + events =~= sink.delivered);
    } else {
        let shorter = events.drop_last();
        assert(opens_no_sync(shorter)) by {
            assert forall|i: int| 0 <= i < shorter.len() implies !(
            #[trigger] shorter[i] is BeginSynchronizedUpdate) by {
                assert(shorter[i] == events[i]);
            }
        }
        lemma_delivery_outside_sync(sink, shorter);
        assert(!(events[events.len() - 1] is BeginSynchronizedUpdate));
        assert((sink.delivered + shorter).push(events.last()) =~= sink.delivered + events);
    }
}

/// Order preservation: outside synchronized updates, a call returns the
/// events in the order of the bytes that produced them. However the chunk
/// is cut in two, the events of the bytes before the cut come first, and
/// the events of the bytes after it follow.
pub proof fn lemma_order_preserved(parser: ParserModel, first: Seq<u8>, second: Seq<u8>)
    requires
        parser.sync_depth == 0,
        opens_no_sync(parser.machine.run(first + second).events),
    ensures
        parser.pushed(first + second).events == parser.machine.feed(first).events
            + parser.machine.feed(first).machine.run(second).events,
{
    let machine = parser.machine;
    let fed = machine.feed(first);
    let rest = fed.machine.feed(second);
    lemma_feed_concat(machine, first, second);
    let produced = machine.run(first + second).events;
    assert(produced =~= fed.events + fed.machine.run(second).events);
    lemma_delivery_outside_sync(parser.sink(), produced);
    assert(Seq::<Event>::empty() + produced =~= produced);
}

/// Sync semantics: a sink outside a synchronized update that accepts the
/// start of one and then ordinary events delivers the start alone and keeps
/// the events waiting. When it accepts the end, it delivers the waiting
/// events in the order in which they came, and the end after them.
pub proof fn lemma_synchronized_update(sink: Sink, interior: Seq<Event>)
    requires
        sink.depth == 0,
        sink.pending.len() == 0,
        has_no_marker(interior),
    ensures
        sink.accept_all(seq![Event::BeginSynchronizedUpdate] + interior) == (Sink {
            depth: 1,
            pending: interior,
            delivered: sink.delivered.push(Event::BeginSynchronizedUpdate),
        }),
        sink.accept_all(
            (seq![Event::BeginSynchronizedUpdate] + interior).push(Event::EndSynchronizedUpdate),
        ) == (Sink {
            depth: 0,
            pending: Seq::empty(),
            delivered: (sink.delivered.push(Event::BeginSynchronizedUpdate) + interior).push(
                Event::EndSynchronizedUpdate,
            ),
        }),
{
    let opened = sink.accept(Event::BeginSynchronizedUpdate);
    sink.lemma_accept_one(Event::BeginSynchronizedUpdate);
    sink.lemma_accept_concat(seq![Event::BeginSynchronizedUpdate], interior);
    lemma_waiting_inside_sync(opened, interior);
    assert(opened.pending + interior =~= interior);
    sink.lemma_accept_push(
        seq![Event::BeginSynchronizedUpdate] + interior,
        Event::EndSynchronizedUpdate,
    );
}

/// Inside a synchronized update, ordinary events are not delivered: they
/// join the waiting events, in their order.
pub proof fn lemma_waiting_inside_sync(sink: Sink, events: Seq<Event>)
    requires
        sink.depth > 0,
        has_no_marker(events),
    ensures
        sink.accept_all(events) == (Sink { pending: sink.pending + events, ..sink }),
    decreases events.len(),
{
    if events.len() == 0 {
        assert(sink.pending + events =~= sink.pending);
    } else {
        let shorter = events.drop_last();
        assert(has_no_marker(shorter)) by {
            assert forall|i: int| 0 <= i < shorter.len() implies !(
            #[trigger] shorter[i] is BeginSynchronizedUpdate) && !(
            shorter[i] is EndSynchronizedUpdate) by {
                assert(shorter[i] == events[i]);
            }
        }
        lemma_waiting_inside_sync(sink, shorter);
        let last = events[events.len() - 1];
        assert(!(last is BeginSynchronizedUpdate) && !(last is EndSynchronizedUpdate));
        assert((sink.pending + shorter).push(events.last()) =~= sink.pending + events);
    }
}

/// A number as a parameter holds it: itself where it fits in `usize`, and
/// the largest `usize` where it does not.
pub open spec fn clamped(value: nat) -> usize {
    if value <= usize::MAX {
        value as usize
    } else {
        usize::MAX
    }
}

/// Saturating arithmetic: the digits of a parameter, however many, leave
/// the number they write as the current parameter, or the largest `usize`
/// where the number does not fit.
pub proof fn lemma_parameter_saturates(machine: Machine, digits: Seq<u8>)
    requires
        machine.state == State::CsiEntry || machine.state == State::CsiParam,
        machine.current_param is None,
        digits.len() > 0,
        all_digits(digits),
    ensures
        machine.feed(digits).events == Seq::<Event>::empty(),
        machine.feed(digits).machine == (Machine {
            state: State::CsiParam,
            current_param: Some(clamped(digits_value(digits))),
            ..machine
        }),
    decreases digits.len(),
{
    let shorter = digits.drop_last();
    let last = digits[digits.len() - 1];
    assert(is_digit(last));
    assert(class_of(last) == ByteClass::Param);
    if shorter.len() == 0 {
        assert(digits_value(shorter) == 0);
        assert(machine.feed(shorter).machine == machine);
        assert(machine.feed(shorter).events =~= Seq::<Event>::empty());
        assert(machine.feed(digits).events =~= Seq::<Event>::empty());
    } else {
        assert(all_digits(shorter)) by {
            assert forall|i: int| 0 <= i < shorter.len() implies is_digit(#[trigger] shorter[i]) by {
                assert(shorter[i] == digits[i]);
            }
        }
        lemma_parameter_saturates(machine, shorter);
        let value = digits_value(shorter);
        assert(with_digit(clamped(value), last) == clamped(digits_value(digits))) by {
            assert(digits_value(digits) == value * 10 + (last - 0x30));
            if value > usize::MAX {
                assert(value * 10 + (last - 0x30) > usize::MAX) by (nonlinear_arith)
                    requires
                        value > usize::MAX,
                        last >= 0x30,
                ;
                assert(usize::MAX * 10 + (last - 0x30) > usize::MAX) by (nonlinear_arith)
                    requires
                        usize::MAX > 0,
                        last >= 0x30,
                ;
            }
        }
        assert(machine.feed(digits).events =~= Seq::<Event>::empty());
    }
}

/// The machine takes a sequence with one more byte as the sequence and then
/// one step.
pub proof fn lemma_feed_push(machine: Machine, bytes: Seq<u8>, byte: u8)
    ensures
        machine.feed(bytes.push(byte)) == (Step {
            machine: machine.feed(bytes).machine.step(byte).machine,
            events: machine.feed(bytes).events + machine.feed(bytes).machine.step(byte).events,
        }),
{
    assert(bytes.push(byte).drop_last() =~= bytes);
}

/// The bytes `ESC [ ? 2 0 2 6` and then `h`, which open a synchronized
/// update, or `l`, which close one.
pub open spec fn sync_sequence(open: bool) -> Seq<u8> {
    seq![0x1Bu8, 0x5B, 0x3F, 0x32, 0x30, 0x32, 0x36, if open { 0x68u8 } else { 0x6Cu8 }]
}

/// The marker that opens or closes a synchronized update.
pub open spec fn sync_marker(open: bool) -> Event {
    if open {
        Event::BeginSynchronizedUpdate
    } else {
        Event::EndSynchronizedUpdate
    }
}

/// The number that the digits `2026` write.
proof fn lemma_value_of_2026()
    ensures
        digits_value(seq![0x32u8, 0x30, 0x32, 0x36]) == 2026,
        all_digits(seq![0x32u8, 0x30, 0x32, 0x36]),
{
    let d4 = seq![0x32u8, 0x30, 0x32, 0x36];
    let d3 = seq![0x32u8, 0x30, 0x32];
    let d2 = seq![0x32u8, 0x30];
    let d1 = seq![0x32u8];
    assert(d4.drop_last() =~= d3);
    assert(d3.drop_last() =~= d2);
    assert(d2.drop_last() =~= d1);
    assert(d1.drop_last() =~= Seq::<u8>::empty());
    assert(digits_value(d1.drop_last()) == 0);
    assert(digits_value(d1) == 2);
    assert(digits_value(d2) == 20);
    assert(digits_value(d3) == 202);
}

/// After ESC the machine is in `Escape` and holds no printable bytes.
proof fn lemma_after_escape(machine: Machine)
    requires
        machine.wf(),
    ensures
        machine.step(0x1B).machine.state == State::Escape,
        machine.step(0x1B).machine.data_buffer.len() == 0,
        machine.step(0x1B).machine.wf(),
{
}

/// `[` after ESC opens a control sequence: the machine forgets the
/// parameters and the intermediates and produces nothing.
proof fn lemma_control_sequence_opens(machine: Machine)
    requires
        machine.state == State::Escape,
        machine.data_buffer.len() == 0,
    ensures
        machine.step(0x5B) == (Step {
            machine: Machine { state: State::CsiEntry, ..machine.cleared() },
            events: Seq::empty(),
        }),
{
    assert(machine.without_data().data_buffer =~= machine.data_buffer);
    assert(machine.step(0x5B).events =~= Seq::<Event>::empty());
}

/// `?` at the start of a control sequence is kept as its first
/// intermediate.
proof fn lemma_private_marker_is_kept(machine: Machine)
    requires
        machine.state == State::CsiEntry,
        machine.intermediates.len() == 0,
    ensures
        machine.step(0x3F) == (Step {
            machine: Machine {
                state: State::CsiParam,
                intermediates: seq![0x3Fu8],
                ..machine
            },
            events: Seq::empty(),
        }),
{
    assert(machine.intermediates.push(0x3F) =~= seq![0x3Fu8]);
    assert(machine.step(0x3F).events =~= Seq::<Event>::empty());
}

/// `h` or `l` after `CSI ? 2026` produces the marker of a synchronized
/// update and takes the machine to `Ground`, with nothing kept.
proof fn lemma_private_final(machine: Machine, open: bool)
    requires
        machine.state == State::CsiParam,
        machine.intermediates == seq![0x3Fu8],
        machine.params.len() == 0,
        machine.current_param == Some(2026usize),
        machine.data_buffer.len() == 0,
    ensures
        machine.step(if open { 0x68u8 } else { 0x6Cu8 }) == (Step {
            machine: Machine { state: State::Ground, ..machine.cleared() },
            events: seq![sync_marker(open)],
        }),
{
    let last: u8 = if open { 0x68 } else { 0x6C };
    let closed = machine.with_final_param();
    assert(closed.params =~= seq![2026usize]);
    assert(closed.param_or(0, 0) == 2026);
    assert(closed.intermediates[0] == 0x3F);
    assert(closed.csi_events(last) =~= seq![sync_marker(open)]);
    assert(machine.pending_data() =~= Seq::<Event>::empty());
    assert(machine.without_data().data_buffer =~= machine.data_buffer);
    assert(machine.step(last).events =~= seq![sync_marker(open)]);
}

/// The machine after `ESC [ ?`.
proof fn lemma_private_prefix(machine: Machine)
    requires
        machine.wf(),
    ensures
        machine.feed(seq![0x1Bu8, 0x5B, 0x3F]) == (Step {
            machine: Machine {
                state: State::CsiParam,
                intermediates: seq![0x3Fu8],
                ..machine.step(0x1B).machine.cleared()
            },
            events: machine.step(0x1B).events,
        }),
{
    let p1 = seq![0x1Bu8];
    let p2 = p1.push(0x5B);
    let p3 = p2.push(0x3F);
    assert(p3 =~= seq![0x1Bu8, 0x5B, 0x3F]);
    let first = machine.step(0x1B);
    lemma_feed_one(machine, 0x1B);
    lemma_after_escape(machine);
    lemma_feed_push(machine, p1, 0x5B);
    lemma_control_sequence_opens(first.machine);
    let second = Machine { state: State::CsiEntry, ..first.machine.cleared() };
    assert(machine.feed(p2).machine == second);
    lemma_feed_push(machine, p2, 0x3F);
    lemma_private_marker_is_kept(second);
    assert(machine.feed(p3).events =~= first.events);
}

/// In whatever state the machine is, the sequence that opens or closes a
/// synchronized update produces what its ESC produces, which ends what was
/// going on before, and then the marker. The machine is in `Ground`
/// after it, with nothing kept of the sequence.
pub proof fn lemma_sync_sequence(machine: Machine, open: bool)
    requires
        machine.wf(),
    ensures
        machine.feed(sync_sequence(open)).events == machine.step(0x1B).events.push(
            sync_marker(open),
        ),
        machine.feed(sync_sequence(open)).machine == (Machine {
            state: State::Ground,
            ..machine.step(0x1B).machine.cleared()
        }),
{
    let last: u8 = if open { 0x68 } else { 0x6C };
    let prefix = seq![0x1Bu8, 0x5B, 0x3F];
    let digits = seq![0x32u8, 0x30, 0x32, 0x36];
    assert((prefix + digits).push(last) =~= sync_sequence(open));
    lemma_private_prefix(machine);
    let marked = machine.feed(prefix);
    lemma_value_of_2026();
    lemma_parameter_saturates(marked.machine, digits);
    lemma_feed_concat(machine, prefix, digits);
    let counted = machine.feed(prefix + digits);
    assert(counted.events =~= marked.events);
    lemma_feed_push(machine, prefix + digits, last);
    lemma_private_final(counted.machine, open);
    let done = machine.feed(sync_sequence(open));
    assert(done.events =~= machine.step(0x1B).events.push(sync_marker(open)));
    assert(done.machine.intermediates =~= Seq::<u8>::empty());
}

/// What an ESC produces holds no marker of a synchronized update.
pub proof fn lemma_escape_produces_no_marker(machine: Machine)
    ensures
        has_no_marker(machine.step(0x1B).events),
{
}

/// A call that opens a synchronized update and goes on with any bytes that
/// produce no marker returns what came before the update and the start of
/// the update, and nothing of what follows it: those events wait.
pub proof fn lemma_opening_call(parser: ParserModel, interior: Seq<u8>)
    requires
        parser.wf(),
        parser.sync_depth == 0,
        has_no_marker(
            parser.machine.feed(sync_sequence(true)).machine.run(interior).events,
        ),
    ensures
        ({
            let inside = parser.machine.feed(sync_sequence(true)).machine.run(interior);
            parser.pushed(sync_sequence(true) + interior) == (Pushed {
                parser: ParserModel {
                    machine: inside.machine,
                    sync_depth: 1,
                    sync_buffer: inside.events,
                },
                events: parser.machine.step(0x1B).events.push(Event::BeginSynchronizedUpdate),
            })
        }),
{
    let machine = parser.machine;
    let begin = sync_sequence(true);
    let before = machine.step(0x1B).events;
    let start = machine.feed(begin);
    let inside = start.machine.run(interior);
    lemma_sync_sequence(machine, true);
    lemma_escape_produces_no_marker(machine);
    lemma_feed_concat(machine, begin, interior);
    let ran = machine.run(begin + interior);
    let marked = seq![Event::BeginSynchronizedUpdate] + inside.events;
    assert(ran.machine == inside.machine);
    assert(ran.events =~= before + marked);
    let sink = parser.sink();
    sink.lemma_accept_concat(before, marked);
    lemma_delivery_outside_sync(sink, before);
    let ready = sink.accept_all(before);
    assert(ready.delivered =~= before);
    lemma_synchronized_update(ready, inside.events);
}

/// A call that closes the one open synchronized update returns the events
/// that waited, in their order, then what the ESC of the closing sequence
/// produces, and then the end of the update. No event waits any more.
pub proof fn lemma_closing_call(parser: ParserModel)
    requires
        parser.wf(),
        parser.sync_depth == 1,
    ensures
        parser.pushed(sync_sequence(false)) == (Pushed {
            parser: ParserModel {
                machine: Machine {
                    state: State::Ground,
                    ..parser.machine.step(0x1B).machine.cleared()
                },
                sync_depth: 0,
                sync_buffer: Seq::empty(),
            },
            events: (parser.sync_buffer + parser.machine.step(0x1B).events).push(
                Event::EndSynchronizedUpdate,
            ),
        }),
{
    let machine = parser.machine;
    let end = sync_sequence(false);
    let ending = machine.step(0x1B).events;
    lemma_sync_sequence(machine, false);
    lemma_after_escape(machine);
    lemma_escape_produces_no_marker(machine);
    let fed = machine.feed(end);
    let ran = machine.run(end);
    assert(fed.machine.pending_data() =~= Seq::<Event>::empty());
    assert(ran.events =~= ending.push(Event::EndSynchronizedUpdate));
    assert(ran.machine == fed.machine) by {
        assert(fed.machine.without_data().data_buffer =~= fed.machine.data_buffer);
    }
    let sink = parser.sink();
    sink.lemma_accept_push(ending, Event::EndSynchronizedUpdate);
    lemma_waiting_inside_sync(sink, ending);
    let done = sink.accept_all(ran.events);
    assert(done.delivered =~= (parser.sync_buffer + ending).push(Event::EndSynchronizedUpdate));
}

/// Sync semantics, from the bytes: of a synchronized update that is opened
/// in one call and closed in the next, the first call returns the start and
/// nothing of what follows it. The second call returns all the events that
/// were produced in between, in the order in which they were produced, and
/// the end of the update after them.
pub proof fn lemma_synchronized_bytes(parser: ParserModel, interior: Seq<u8>)
    requires
        parser.wf(),
        parser.sync_depth == 0,
        has_no_marker(
            parser.machine.feed(sync_sequence(true)).machine.run(interior).events,
        ),
    ensures
        ({
            let opened = parser.pushed(sync_sequence(true) + interior);
            let closed = opened.parser.pushed(sync_sequence(false));
            let inside = parser.machine.feed(sync_sequence(true)).machine.run(interior);
            &&& opened.events == parser.machine.step(0x1B).events.push(
                Event::BeginSynchronizedUpdate,
            )
            &&& closed.events == (inside.events + inside.machine.step(0x1B).events).push(
                Event::EndSynchronizedUpdate,
            )
            &&& closed.parser.sync_depth == 0
            &&& closed.parser.sync_buffer.len() == 0
        }),
{
    lemma_opening_call(parser, interior);
    lemma_pushed_preserves_wf(parser, sync_sequence(true) + interior);
    lemma_closing_call(parser.pushed(sync_sequence(true) + interior).parser);
}

/// The `id` of a hyperlink is UTF-8 where its parameters are: the colons
/// and the `id=` that bound it are ASCII, so that no character is cut.
pub proof fn lemma_id_is_utf8(params: Seq<u8>)
    requires
        valid_utf8(params),
    ensures
        id_bytes(params) matches Some(bytes) ==> valid_utf8(bytes),
    decreases params.len(),
{
    let len = params.len() as int;
    let end = position(params, 0x3A);
    lemma_position_bounds(params, 0x3A);
    if has_id_prefix(params.subrange(0, end)) {
        assert(params[2] == params.subrange(0, end)[2]);
        lemma_ascii_is_a_boundary(params, 2);
        if end < len {
            lemma_ascii_is_a_boundary(params, end);
        } else {
            is_char_boundary_start_end_of_seq(params);
        }
        lemma_utf8_between_boundaries(params, 3, end);
    } else if end < len {
        lemma_ascii_is_a_boundary(params, end);
        valid_utf8_split(params, end + 1);
        lemma_id_is_utf8(params.subrange(end + 1, len));
    }
}

/// Printable bytes are flushed before any other event: where a step
/// produces events while printable bytes are pending, the first event is the
/// pending data, and no printable bytes are pending after the step.
pub proof fn lemma_data_is_flushed_first(machine: Machine, byte: u8)
    requires
        machine.wf(),
        machine.data_buffer.len() > 0,
        machine.step(byte).events.len() > 0,
    ensures
        machine.step(byte).events[0] == Event::Data(machine.data_buffer),
        machine.step(byte).machine.data_buffer.len() == 0,
{
}

} // verus!
