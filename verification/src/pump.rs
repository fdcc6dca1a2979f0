//! The output pump's decision logic: each blocking read of the pty yields an
//! event, and each event determines whether the pump emits the bytes to the
//! consumer or shuts the session down. The emission model proves that the
//! pump forwards the shell's output in order, complete, without duplication.

use vstd::prelude::*;

use crate::pty::{read_chunk, PtyReader};

verus! {

/// What one blocking read of the pty produced: a non-empty chunk of shell
/// output, the end of the stream (the shell exited and closed its side), or
/// a read error (treated as end of stream, no retry).
pub enum ReadEvent {
    Data(Vec<u8>),
    Eof,
    Failed,
}

/// What the pump does with one event: emit the bytes to the consumer, or
/// stop and tear the session down.
pub enum PumpAction {
    Emit(Vec<u8>),
    Shutdown,
}

/// The bytes an event carries (empty for the terminating events).
pub open spec fn payload(ev: ReadEvent) -> Seq<u8> {
    match ev {
        ReadEvent::Data(chunk) => chunk@,
        ReadEvent::Eof => Seq::empty(),
        ReadEvent::Failed => Seq::empty(),
    }
}

/// The payloads of a sequence of events, in order.
pub open spec fn payloads_of(events: Seq<ReadEvent>) -> Seq<Seq<u8>> {
    events.map_values(|ev: ReadEvent| payload(ev))
}

/// The byte sequences held by a vector of chunks, in order.
pub open spec fn views_of(chunks: Seq<Vec<u8>>) -> Seq<Seq<u8>> {
    chunks.map_values(|chunk: Vec<u8>| chunk@)
}

/// How many leading events of the sequence are data: the pump runs exactly
/// this far before the first end-of-stream or error stops it.
pub open spec fn live_prefix_len(events: Seq<ReadEvent>) -> int
    decreases events.len(),
{
    if events.len() == 0 {
        0
    } else if events[0] is Data {
        1 + live_prefix_len(events.skip(1))
    } else {
        0
    }
}

/// The chunks a pump emits, given the events its reads produce in order: the
/// payload of every data event before the first end-of-stream or error,
/// in the order read.
pub open spec fn emitted_chunks(events: Seq<ReadEvent>) -> Seq<Seq<u8>>
    decreases events.len(),
{
    if events.len() == 0 {
        Seq::empty()
    } else if events[0] is Data {
        seq![payload(events[0])] + emitted_chunks(events.skip(1))
    } else {
        Seq::empty()
    }
}

/// Ordering: for any sequence of reads, the pump emits exactly one chunk per
/// data event up to the stream's end, the i-th emitted chunk is the payload
/// of the i-th read, and every read the pump consumed before stopping was
/// data. No reordering, no loss, no duplication.
pub proof fn lemma_pump_ordering(events: Seq<ReadEvent>)
    ensures
        0 <= live_prefix_len(events) <= events.len(),
        emitted_chunks(events).len() == live_prefix_len(events),
        forall|i: int|
            0 <= i < live_prefix_len(events) ==> emitted_chunks(events)[i] == payload(events[i]),
        forall|i: int| 0 <= i < live_prefix_len(events) ==> events[i] is Data,
        live_prefix_len(events) < events.len() ==> !(events[live_prefix_len(events)] is Data),
    decreases events.len(),
{
    if events.len() == 0 {
    } else if events[0] is Data {
        lemma_pump_ordering(events.skip(1));
        assert forall|i: int| 0 <= i < live_prefix_len(events) implies emitted_chunks(events)[i]
            == payload(events[i]) by {
            if i > 0 {
                assert(emitted_chunks(events)[i] == emitted_chunks(events.skip(1))[i - 1]);
                assert(events.skip(1)[i - 1] == events[i]);
            }
        }
        assert forall|i: int| 0 <= i < live_prefix_len(events) implies events[i] is Data by {
            if i > 0 {
                assert(events.skip(1)[i - 1] is Data);
            }
        }
        if live_prefix_len(events) < events.len() {
            assert(events.skip(1)[live_prefix_len(events) - 1] == events[live_prefix_len(
                events,
            )]);
        }
    } else {
    }
}

/// Classifies the outcome of one read: a successful non-empty chunk is data
/// with its bytes unchanged, a successful empty chunk is the end of the
/// stream, and a read error is the error event.
pub fn classify_read(r: Result<Vec<u8>, std::io::Error>) -> (ev: ReadEvent)
    ensures
        r matches Ok(chunk) ==> (chunk@.len() == 0 ==> ev is Eof) && (chunk@.len() > 0 ==> ev
            is Data && ev->0@ == chunk@),
        r is Err ==> ev is Failed,
{
    match r {
        Ok(chunk) => {
            if chunk.len() == 0 {
                ReadEvent::Eof
            } else {
                ReadEvent::Data(chunk)
            }
        },
        Err(_) => ReadEvent::Failed,
    }
}

/// One blocking read of the pty, classified by `classify_read`: a successful
/// non-empty read is data, a successful empty read is the end of the stream,
/// and a read error is the error event.
pub fn poll_output(reader: &mut PtyReader) -> (ev: ReadEvent)
    ensures
        ev matches ReadEvent::Data(chunk) ==> 1 <= chunk@.len() <= 4096,
{
    classify_read(read_chunk(reader))
}

/// The pump's decision for one event: data is emitted to the consumer with
/// its bytes unchanged; end of stream and read error both stop the pump.
pub fn pump_step(ev: ReadEvent) -> (act: PumpAction)
    ensures
        ev matches ReadEvent::Data(chunk) ==> act matches PumpAction::Emit(out) && out@ == chunk@,
        ev is Eof || ev is Failed ==> act is Shutdown,
{
    match ev {
        ReadEvent::Data(chunk) => PumpAction::Emit(chunk),
        ReadEvent::Eof => PumpAction::Shutdown,
        ReadEvent::Failed => PumpAction::Shutdown,
    }
}

/// Runs the pump's decision loop over a recorded sequence of read events and
/// returns the chunks it would emit, in order: exactly the emission model,
/// so a consumer replaying a session's reads gets the shell's output stream
/// in read order.
pub fn pump_collect(events: Vec<ReadEvent>) -> (chunks: Vec<Vec<u8>>)
    ensures
        views_of(chunks@) == emitted_chunks(events@),
{
    let ghost all_events: Seq<ReadEvent> = events@;
    let mut rest = events;
    let mut chunks: Vec<Vec<u8>> = Vec::new();
    let ghost mut done: Seq<ReadEvent> = Seq::empty();
    proof {
        assert(all_events =~= done + rest@);
        assert(views_of(chunks@) =~= payloads_of(done));
    }
    loop
        invariant
            all_events == events@,
            all_events == done + rest@,
            live_prefix_len(done) == done.len(),
            views_of(chunks@) == payloads_of(done),
        decreases rest@.len(),
    {
        if rest.len() == 0 {
            proof {
                assert(all_events =~= done);
                lemma_emitted_of_all_data(done);
            }
            return chunks;
        }
        let ghost rest_before: Seq<ReadEvent> = rest@;
        let ev = rest.remove(0);
        let ghost event: ReadEvent = ev;
        proof {
            assert(rest_before =~= seq![event] + rest@);
        }
        match pump_step(ev) {
            PumpAction::Emit(chunk) => {
                proof {
                    assert(event is Data);
                    assert(chunk@ == payload(event));
                    assert(views_of(chunks@).len() == chunks@.len());
                    assert(payloads_of(done).len() == done.len());
                }
                let ghost chunks_before: Seq<Vec<u8>> = chunks@;
                chunks.push(chunk);
                proof {
                    let prev = done;
                    done = prev.push(event);
                    lemma_live_prefix_push_data(prev, event);
                    assert forall|i: int| 0 <= i < views_of(chunks@).len() implies views_of(
                        chunks@,
                    )[i] == payloads_of(done)[i] by {
                        if i < chunks_before.len() {
                            assert(views_of(chunks_before)[i] == payloads_of(prev)[i]);
                        }
                    }
                    assert(views_of(chunks@) =~= payloads_of(done));
                    assert(all_events =~= done + rest@);
                }
            },
            PumpAction::Shutdown => {
                proof {
                    assert(!(event is Data));
                    assert((seq![event] + rest@)[0] == event);
                    assert(all_events =~= done + (seq![event] + rest@));
                    lemma_emitted_stops(done, seq![event] + rest@);
                }
                return chunks;
            },
        }
    }
}

/// If every event of a sequence is data, the pump emits all of their
/// payloads in order.
proof fn lemma_emitted_of_all_data(events: Seq<ReadEvent>)
    requires
        live_prefix_len(events) == events.len(),
    ensures
        emitted_chunks(events) == payloads_of(events),
    decreases events.len(),
{
    if events.len() > 0 {
        assert(events[0] is Data);
        lemma_emitted_of_all_data(events.skip(1));
        assert(emitted_chunks(events) =~= payloads_of(events));
    } else {
        assert(emitted_chunks(events) =~= payloads_of(events));
    }
}

/// Appending one more data event to an all-data sequence keeps it all data.
proof fn lemma_live_prefix_push_data(events: Seq<ReadEvent>, ev: ReadEvent)
    requires
        live_prefix_len(events) == events.len(),
        ev is Data,
    ensures
        live_prefix_len(events.push(ev)) == events.len() + 1,
    decreases events.len(),
{
    if events.len() == 0 {
        assert(events.push(ev)[0] is Data);
        assert(events.push(ev).skip(1) =~= Seq::<ReadEvent>::empty());
        assert(live_prefix_len(Seq::<ReadEvent>::empty()) == 0);
    } else {
        assert(events[0] is Data);
        assert(events.push(ev)[0] is Data);
        assert(events.push(ev).skip(1) =~= events.skip(1).push(ev));
        lemma_live_prefix_push_data(events.skip(1), ev);
    }
}

/// Once a terminating event follows an all-data prefix, the pump emits the
/// prefix's payloads and nothing after.
proof fn lemma_emitted_stops(prefix: Seq<ReadEvent>, rest: Seq<ReadEvent>)
    requires
        live_prefix_len(prefix) == prefix.len(),
        rest.len() > 0,
        !(rest[0] is Data),
    ensures
        emitted_chunks(prefix + rest) == payloads_of(prefix),
    decreases prefix.len(),
{
    if prefix.len() == 0 {
        assert((prefix + rest) =~= rest);
        assert(payloads_of(prefix) =~= Seq::<Seq<u8>>::empty());
    } else {
        assert(prefix[0] is Data);
        assert((prefix + rest)[0] == prefix[0]);
        assert((prefix + rest).skip(1) =~= prefix.skip(1) + rest);
        lemma_emitted_stops(prefix.skip(1), rest);
        assert(emitted_chunks(prefix + rest) =~= payloads_of(prefix));
    }
}

} // verus!
