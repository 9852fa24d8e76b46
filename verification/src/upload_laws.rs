//! What holds of every multipart upload, proved of the state machine.
//!
//! An upload is followed through a sequence of reports: [`run`] gives the
//! state it ends in and the calls that the caller was told to make on the way.

use crate::error::ErrorView;
use crate::multipart::{
    no_data, no_etag, part_count, unexpected_report, ActionView, EventView, PartView, Phase,
    SessionView, MAX_READ_SIZE,
};
use vstd::prelude::*;

verus! {

/// The upload after the reports `events`, taken one after the other, and the
/// calls asked for on the way.
pub open spec fn run(s: SessionView, events: Seq<EventView>) -> (SessionView, Seq<ActionView>)
    decreases events.len(),
{
    if events.len() == 0 {
        (s, Seq::empty())
    } else {
        let (next, action) = s.step(events[0]);
        let (end, rest) = run(next, events.drop_first());
        (end, seq![action] + rest)
    }
}

/// Whether each of `events` is the report the upload waits for when it comes.
pub open spec fn accepted(s: SessionView, events: Seq<EventView>) -> bool
    decreases events.len(),
{
    events.len() == 0 || (s.accepts(events[0]) && accepted(
        s.step(events[0]).0,
        events.drop_first(),
    ))
}

/// Whether none of `events` starts a part whose number does not fit in 32
/// bits, when they are taken one after the other.
pub open spec fn fitting(s: SessionView, events: Seq<EventView>) -> bool
    decreases events.len(),
{
    events.len() == 0 || (s.fits(events[0]) && fitting(s.step(events[0]).0, events.drop_first()))
}

/// The number of abort calls among `actions`.
pub open spec fn abort_calls(actions: Seq<ActionView>) -> nat
    decreases actions.len(),
{
    if actions.len() == 0 {
        0
    } else {
        (if actions[0] is Abort {
            1nat
        } else {
            0nat
        }) + abort_calls(actions.drop_first())
    }
}

/// The lists of parts of the completion calls among `actions`, in order.
pub open spec fn completion_calls(actions: Seq<ActionView>) -> Seq<Seq<PartView>>
    decreases actions.len(),
{
    if actions.len() == 0 {
        Seq::empty()
    } else {
        let rest = completion_calls(actions.drop_first());
        match actions[0] {
            ActionView::Complete(parts) => seq![parts] + rest,
            _ => rest,
        }
    }
}

/// The parts sent among `actions`, in order: each with its number and its bytes.
pub open spec fn sent_parts(actions: Seq<ActionView>) -> Seq<(int, Seq<u8>)>
    decreases actions.len(),
{
    if actions.len() == 0 {
        Seq::empty()
    } else {
        let rest = sent_parts(actions.drop_first());
        match actions[0] {
            ActionView::UploadPart { part_number, body } => seq![(part_number, body)] + rest,
            _ => rest,
        }
    }
}

/// The bytes of `parts`, one part after the other.
pub open spec fn payload(parts: Seq<(int, Seq<u8>)>) -> Seq<u8>
    decreases parts.len(),
{
    if parts.len() == 0 {
        Seq::empty()
    } else {
        parts[0].1 + payload(parts.drop_first())
    }
}

/// `data` cut into chunks of `len` bytes, the last one shorter where `len`
/// does not divide the length. No chunk is empty.
pub open spec fn chunks_of(data: Seq<u8>, len: nat) -> Seq<Seq<u8>>
    recommends
        len > 0,
    decreases data.len(),
{
    if data.len() == 0 || len == 0 {
        Seq::empty()
    } else if data.len() <= len {
        seq![data]
    } else {
        seq![data.take(len as int)] + chunks_of(data.skip(len as int), len)
    }
}

/// The parts numbered from `after + 1` on that carry `chunks`.
pub open spec fn numbered_chunks(after: int, chunks: Seq<Seq<u8>>) -> Seq<(int, Seq<u8>)> {
    Seq::new(chunks.len(), |i: int| (after + i + 1, chunks[i]))
}

/// The reports of an upload of a file without data: the store gives the
/// session `id`, the file ends at once, and the abort call comes back.
pub open spec fn empty_file_events(id: Seq<char>) -> Seq<EventView> {
    seq![
        EventView::Begin,
        EventView::SessionOpened(Ok(Some(id))),
        EventView::ChunkRead(Ok(Seq::empty())),
        EventView::AbortReturned,
    ]
}

/// 1 where the abort call has been asked for in this phase, else 0.
pub open spec fn aborted_by(phase: Phase) -> nat {
    if phase == Phase::Aborting || phase == Phase::Aborted {
        1
    } else {
        0
    }
}

/// 1 where a completion call can still be asked for from this phase on, else 0.
pub open spec fn may_complete(phase: Phase) -> nat {
    if phase == Phase::Idle || phase == Phase::Opening || phase == Phase::Reading || phase
        == Phase::Uploading || phase == Phase::UploadingLast {
        1
    } else {
        0
    }
}

proof fn lemma_run_concat(s: SessionView, a: Seq<EventView>, b: Seq<EventView>)
    ensures
        run(s, a + b).0 == run(run(s, a).0, b).0,
        run(s, a + b).1 == run(s, a).1 + run(run(s, a).0, b).1,
        accepted(s, a + b) == (accepted(s, a) && accepted(run(s, a).0, b)),
    decreases a.len(),
{
    if a.len() == 0 {
        assert(a + b =~= b);
        assert(run(s, a).1 + run(s, b).1 =~= run(s, b).1);
    } else {
        let next = s.step(a[0]).0;
        assert((a + b).drop_first() =~= a.drop_first() + b);
        assert((a + b)[0] == a[0]);
        lemma_run_concat(next, a.drop_first(), b);
        assert(run(s, a + b).1 =~= run(s, a).1 + run(run(s, a).0, b).1);
    }
}

proof fn lemma_abort_calls_concat(x: Seq<ActionView>, y: Seq<ActionView>)
    ensures
        abort_calls(x + y) == abort_calls(x) + abort_calls(y),
    decreases x.len(),
{
    if x.len() == 0 {
        assert(x + y =~= y);
    } else {
        assert((x + y).drop_first() =~= x.drop_first() + y);
        lemma_abort_calls_concat(x.drop_first(), y);
    }
}

proof fn lemma_completion_calls_concat(x: Seq<ActionView>, y: Seq<ActionView>)
    ensures
        completion_calls(x + y) == completion_calls(x) + completion_calls(y),
    decreases x.len(),
{
    if x.len() == 0 {
        assert(x + y =~= y);
        assert(completion_calls(x) + completion_calls(y) =~= completion_calls(y));
    } else {
        assert((x + y).drop_first() =~= x.drop_first() + y);
        lemma_completion_calls_concat(x.drop_first(), y);
        assert(completion_calls(x + y) =~= completion_calls(x) + completion_calls(y));
    }
}

proof fn lemma_sent_parts_concat(x: Seq<ActionView>, y: Seq<ActionView>)
    ensures
        sent_parts(x + y) == sent_parts(x) + sent_parts(y),
    decreases x.len(),
{
    if x.len() == 0 {
        assert(x + y =~= y);
        assert(sent_parts(x) + sent_parts(y) =~= sent_parts(y));
    } else {
        assert((x + y).drop_first() =~= x.drop_first() + y);
        lemma_sent_parts_concat(x.drop_first(), y);
        assert(sent_parts(x + y) =~= sent_parts(x) + sent_parts(y));
    }
}

proof fn lemma_run_one(s: SessionView, e: EventView)
    ensures
        run(s, seq![e]) == (s.step(e).0, seq![s.step(e).1]),
        accepted(s, seq![e]) == s.accepts(e),
{
    let events = seq![e];
    let next = s.step(e).0;
    assert(events.drop_first() =~= Seq::<EventView>::empty());
    assert(run(next, Seq::<EventView>::empty()) == (next, Seq::<ActionView>::empty()));
    assert(accepted(next, Seq::<EventView>::empty()));
    assert(seq![s.step(e).1] + Seq::<ActionView>::empty() =~= seq![s.step(e).1]);
}

proof fn lemma_run_two(s: SessionView, e1: EventView, e2: EventView)
    ensures
        run(s, seq![e1, e2]) == (
            s.step(e1).0.step(e2).0,
            seq![s.step(e1).1, s.step(e1).0.step(e2).1],
        ),
        accepted(s, seq![e1, e2]) == (s.accepts(e1) && s.step(e1).0.accepts(e2)),
{
    lemma_run_one(s, e1);
    lemma_run_one(s.step(e1).0, e2);
    lemma_run_concat(s, seq![e1], seq![e2]);
    assert(seq![e1] + seq![e2] =~= seq![e1, e2]);
    assert(seq![s.step(e1).1] + seq![s.step(e1).0.step(e2).1] =~= seq![
        s.step(e1).1,
        s.step(e1).0.step(e2).1,
    ]);
}

proof fn lemma_calls_of_one(a: ActionView)
    ensures
        abort_calls(seq![a]) == (if a is Abort {
            1nat
        } else {
            0nat
        }),
        completion_calls(seq![a]) == (match a {
            ActionView::Complete(parts) => seq![parts],
            _ => Seq::empty(),
        }),
        sent_parts(seq![a]) == (match a {
            ActionView::UploadPart { part_number, body } => seq![(part_number, body)],
            _ => Seq::empty(),
        }),
{
    let actions = seq![a];
    assert(actions.drop_first() =~= Seq::<ActionView>::empty());
    assert(abort_calls(Seq::<ActionView>::empty()) == 0);
    assert(completion_calls(Seq::<ActionView>::empty()) =~= Seq::empty());
    assert(sent_parts(Seq::<ActionView>::empty()) =~= Seq::empty());
    assert(completion_calls(actions) =~= (match a {
        ActionView::Complete(parts) => seq![parts],
        _ => Seq::empty(),
    }));
    assert(sent_parts(actions) =~= (match a {
        ActionView::UploadPart { part_number, body } => seq![(part_number, body)],
        _ => Seq::empty(),
    }));
}

proof fn lemma_calls_of_two(a: ActionView, b: ActionView)
    ensures
        abort_calls(seq![a, b]) == abort_calls(seq![a]) + abort_calls(seq![b]),
        completion_calls(seq![a, b]) == completion_calls(seq![a]) + completion_calls(seq![b]),
        sent_parts(seq![a, b]) == sent_parts(seq![a]) + sent_parts(seq![b]),
{
    assert(seq![a] + seq![b] =~= seq![a, b]);
    lemma_abort_calls_concat(seq![a], seq![b]);
    lemma_completion_calls_concat(seq![a], seq![b]);
    lemma_sent_parts_concat(seq![a], seq![b]);
}

proof fn lemma_payload_of_one(part: (int, Seq<u8>))
    ensures
        payload(seq![part]) == part.1,
{
    let parts = seq![part];
    assert(parts.drop_first() =~= Seq::<(int, Seq<u8>)>::empty());
    assert(payload(Seq::<(int, Seq<u8>)>::empty()) =~= Seq::<u8>::empty());
    assert(payload(parts) =~= part.1);
}

/// A step keeps an upload well formed.
pub proof fn law_step_keeps_wf(s: SessionView, event: EventView)
    requires
        s.wf(),
        s.fits(event),
    ensures
        s.step(event).0.wf(),
{
}

/// An upload that is over stays as it is: it waits for no report, and
/// whatever is reported changes nothing and asks nothing of the store. What
/// comes after it has to be a new upload, which starts without a session.
pub proof fn law_finished_upload_stays_as_it_is(s: SessionView, event: EventView)
    requires
        s.phase.is_final(),
    ensures
        !s.awaits(event),
        s.step(event) == (s, ActionView::Finish(Err(unexpected_report()))),
{
}

/// The id of a session comes from the store and stays: a step leaves the id
/// as it is, except for the awaited answer to the request for a session,
/// which sets it to the id that the store gave.
pub proof fn law_session_id_is_the_stores(s: SessionView, event: EventView)
    requires
        s.wf(),
    ensures
        match event {
            EventView::SessionOpened(Ok(Some(id))) => s.step(event).0.upload_id == (if s.phase
                == Phase::Opening {
                Some(id)
            } else {
                s.upload_id
            }),
            _ => s.step(event).0.upload_id == s.upload_id,
        },
{
}

proof fn lemma_finished_run_changes_nothing(s: SessionView, events: Seq<EventView>)
    requires
        s.phase.is_final(),
    ensures
        run(s, events).0 == s,
        abort_calls(run(s, events).1) == 0,
        completion_calls(run(s, events).1).len() == 0,
        sent_parts(run(s, events).1).len() == 0,
    decreases events.len(),
{
    if events.len() > 0 {
        law_finished_upload_stays_as_it_is(s, events[0]);
        lemma_finished_run_changes_nothing(s, events.drop_first());
        let actions = run(s, events).1;
        assert(actions.drop_first() =~= run(s, events.drop_first()).1);
    }
}

/// Of every upload, from any state on and whatever is reported: the abort
/// call is asked for at most once, and exactly once where the upload ends
/// aborted; the completion call is asked for at most once; an upload that
/// ends completed has asked for it once, with all the parts that the store
/// took, in order, and has asked for no abort; an upload that the store
/// refused has sent nothing.
pub proof fn law_one_abort_one_completion(s: SessionView, events: Seq<EventView>)
    requires
        s.wf(),
        fitting(s, events),
    ensures
        ({
            let (end, actions) = run(s, events);
            &&& end.wf()
            &&& actions.len() == events.len()
            &&& abort_calls(actions) + aborted_by(s.phase) == aborted_by(end.phase)
            &&& completion_calls(actions).len() <= may_complete(s.phase)
            &&& s.upload_id is Some ==> end.upload_id == s.upload_id
            &&& end.phase == Phase::Completed && may_complete(s.phase) == 1 ==> completion_calls(
                actions,
            ) == seq![end.parts]
            &&& end.phase == Phase::Refused ==> completion_calls(actions).len() == 0 && sent_parts(
                actions,
            ).len() == 0
        }),
    decreases events.len(),
{
    if events.len() > 0 {
        let (next, action) = s.step(events[0]);
        let rest = events.drop_first();
        law_one_abort_one_completion(next, rest);
        let (end, tail) = run(next, rest);
        let actions = seq![action] + tail;
        assert(actions.drop_first() =~= tail);
        assert(actions[0] == action);
        if next.phase.is_final() {
            lemma_finished_run_changes_nothing(next, rest);
        }
        if end.phase == Phase::Completed && may_complete(s.phase) == 1 {
            if may_complete(next.phase) == 1 {
                assert(completion_calls(actions) == seq![end.parts]);
            } else {
                assert(next.phase == Phase::Completing);
                assert(completion_calls(tail).len() == 0);
                lemma_parts_stay_while_completing(next, rest);
                assert(completion_calls(actions) =~= seq![end.parts]);
            }
        }
    }
}

proof fn lemma_parts_stay_while_completing(s: SessionView, events: Seq<EventView>)
    requires
        s.wf(),
        fitting(s, events),
        s.phase == Phase::Completing || s.phase == Phase::Completed,
        run(s, events).0.phase == Phase::Completed,
    ensures
        run(s, events).0.parts == s.parts,
    decreases events.len(),
{
    if events.len() > 0 {
        let next = s.step(events[0]).0;
        let rest = events.drop_first();
        if next.phase == Phase::Aborting {
            law_one_abort_one_completion(next, rest);
        } else {
            lemma_parts_stay_while_completing(next, rest);
        }
    }
}

/// Where a part fails, or comes back without a tag, the abort call is asked
/// for at once; after it no part is sent and no completion call and no second
/// abort call is asked for, whatever is reported; and when the abort call is
/// back the upload is over with the failure of the part.
pub proof fn law_failed_part_aborts_once(
    s: SessionView,
    failure: Result<Option<Seq<char>>, ErrorView>,
    rest: Seq<EventView>,
)
    requires
        s.wf(),
        s.phase == Phase::Uploading || s.phase == Phase::UploadingLast,
        !(failure matches Ok(Some(_))),
    ensures
        ({
            let (next, action) = s.step(EventView::PartUploaded(failure));
            let (end, actions) = run(next, rest);
            let reported = match failure {
                Err(e) => e,
                _ => no_etag(),
            };
            &&& action == ActionView::Abort
            &&& abort_calls(actions) == 0
            &&& completion_calls(actions).len() == 0
            &&& sent_parts(actions).len() == 0
            &&& end.phase == Phase::Aborting || end.phase == Phase::Aborted
            &&& next.step(EventView::AbortReturned) == (
                SessionView { phase: Phase::Aborted, failure: None, ..next },
                ActionView::Finish(Err(reported)),
            )
        }),
{
    let next = s.step(EventView::PartUploaded(failure)).0;
    lemma_nothing_sent_once_reading_is_over(next, rest);
    law_one_abort_one_completion(next, rest);
}

/// Cutting `data` into chunks of `len` bytes gives as many chunks as the
/// length divided by `len`, rounded up; none of them is empty or longer than
/// `len`; and one after the other they are `data` again.
pub proof fn law_chunks_cover_the_file(data: Seq<u8>, len: nat)
    requires
        len > 0,
    ensures
        chunks_of(data, len).len() == part_count(data.len(), len),
        forall|i: int|
            0 <= i < chunks_of(data, len).len() ==> 0 < (#[trigger] chunks_of(data, len)[i]).len()
                <= len,
        forall|i: int|
            0 <= i < chunks_of(data, len).len() - 1 ==> (#[trigger] chunks_of(data, len)[i]).len()
                == len,
        payload(numbered_chunks(0, chunks_of(data, len))) == data,
    decreases data.len(),
{
    let n = data.len() as int;
    let c = len as int;
    let chunks = chunks_of(data, len);
    if data.len() == 0 {
        assert((c - 1) / c == 0) by (nonlinear_arith)
            requires
                c > 0,
        ;
        assert(payload(numbered_chunks(0, chunks)) =~= data);
    } else if data.len() <= len {
        assert((n + c - 1) / c == 1) by (nonlinear_arith)
            requires
                0 < n <= c,
        ;
        let parts = numbered_chunks(0, chunks);
        assert(parts =~= seq![(1int, data)]);
        lemma_payload_of_one((1int, data));
    } else {
        let head = data.take(c);
        let tail = data.skip(c);
        law_chunks_cover_the_file(tail, len);
        let rest = chunks_of(tail, len);
        assert(chunks == seq![head] + rest);
        assert((n + c - 1) / c == (n - c + c - 1) / c + 1) by (nonlinear_arith)
            requires
                c > 0,
                n > c,
        ;
        assert(rest.len() >= 1) by {
            assert((n - c + c - 1) / c >= 1) by (nonlinear_arith)
                requires
                    c > 0,
                    n > c,
            ;
        }
        assert forall|i: int| 0 <= i < chunks.len() implies 0 < (#[trigger] chunks[i]).len()
            <= len by {
            if i > 0 {
                assert(chunks[i] == rest[i - 1]);
            }
        }
        assert forall|i: int| 0 <= i < chunks.len() - 1 implies (#[trigger] chunks[i]).len()
            == len by {
            if i > 0 {
                assert(chunks[i] == rest[i - 1]);
            }
        }
        let parts = numbered_chunks(0, chunks);
        assert forall|i: int| 0 <= i < parts.drop_first().len() implies (
        #[trigger] parts.drop_first()[i]).1 == numbered_chunks(0, rest)[i].1 by {
            assert(parts.drop_first()[i] == parts[i + 1]);
            assert(chunks[i + 1] == rest[i]);
        }
        lemma_payload_ignores_numbers(parts.drop_first(), numbered_chunks(0, rest));
        assert(parts[0].1 == head);
        assert(head + tail =~= data);
    }
}

proof fn lemma_payload_ignores_numbers(x: Seq<(int, Seq<u8>)>, y: Seq<(int, Seq<u8>)>)
    requires
        x.len() == y.len(),
        forall|i: int| 0 <= i < x.len() ==> (#[trigger] x[i]).1 == y[i].1,
    ensures
        payload(x) == payload(y),
    decreases x.len(),
{
    if x.len() > 0 {
        assert(x[0].1 == y[0].1);
        assert forall|i: int| 0 <= i < x.drop_first().len() implies (#[trigger] x.drop_first()[i]).1
            == y.drop_first()[i].1 by {
            assert(x.drop_first()[i] == x[i + 1]);
        }
        lemma_payload_ignores_numbers(x.drop_first(), y.drop_first());
    }
}

/// A file without data makes no part and no object: nothing is sent, no
/// completion call is asked for, the session is aborted once, and the upload
/// is over with an error.
pub proof fn law_empty_file_is_an_error(s: SessionView, id: Seq<char>)
    requires
        s.wf(),
        s.phase == Phase::Idle,
    ensures
        ({
            let events = empty_file_events(id);
            let (end, actions) = run(s, events);
            &&& accepted(s, events)
            &&& sent_parts(actions).len() == 0
            &&& completion_calls(actions).len() == 0
            &&& abort_calls(actions) == 1
            &&& end.phase == Phase::Aborted
            &&& actions.last() == ActionView::Finish(Err(no_data()))
        }),
{
    let events = empty_file_events(id);
    let opening = seq![events[0], events[1]];
    let closing = seq![events[2], events[3]];
    assert(events =~= opening + closing);
    let (s1, a1) = s.step(events[0]);
    let (s2, a2) = s1.step(events[1]);
    let (s3, a3) = s2.step(events[2]);
    let (s4, a4) = s3.step(events[3]);
    lemma_run_two(s, events[0], events[1]);
    lemma_run_two(s2, events[2], events[3]);
    lemma_run_concat(s, opening, closing);
    let head = seq![a1, a2];
    let tail = seq![a3, a4];
    let actions = run(s, events).1;
    assert(actions == head + tail);
    assert(s2.parts.len() == 0);
    lemma_sent_parts_concat(head, tail);
    lemma_abort_calls_concat(head, tail);
    lemma_completion_calls_concat(head, tail);
    lemma_calls_of_two(a1, a2);
    lemma_calls_of_two(a3, a4);
    lemma_calls_of_one(a1);
    lemma_calls_of_one(a2);
    lemma_calls_of_one(a3);
    lemma_calls_of_one(a4);
    assert(sent_parts(actions) =~= Seq::empty());
    assert(completion_calls(actions) =~= Seq::empty());
}

/// Whether no more of the file is read from this phase on.
pub open spec fn reading_is_over(phase: Phase) -> bool {
    phase == Phase::UploadingLast || phase == Phase::Completing || phase == Phase::Aborting
        || phase.is_final()
}

/// The bytes that the reads among `events` gave while the upload waited for
/// them, one after the other.
pub open spec fn bytes_read(s: SessionView, events: Seq<EventView>) -> Seq<u8>
    decreases events.len(),
{
    if events.len() == 0 {
        Seq::empty()
    } else {
        let later = bytes_read(s.step(events[0]).0, events.drop_first());
        match events[0] {
            EventView::ChunkRead(Ok(data)) => if s.awaits(events[0]) {
                data + later
            } else {
                later
            },
            _ => later,
        }
    }
}

proof fn lemma_nothing_sent_once_reading_is_over(s: SessionView, events: Seq<EventView>)
    requires
        reading_is_over(s.phase),
    ensures
        sent_parts(run(s, events).1).len() == 0,
        bytes_read(s, events).len() == 0,
        reading_is_over(run(s, events).0.phase),
        fitting(s, events),
    decreases events.len(),
{
    if events.len() > 0 {
        let (next, action) = s.step(events[0]);
        let rest = events.drop_first();
        lemma_nothing_sent_once_reading_is_over(next, rest);
        let actions = run(s, events).1;
        assert(actions.drop_first() =~= run(next, rest).1);
    }
}

/// The number that the next part to be sent gets: one more than the parts
/// that the store has taken, counting the part on its way, if there is one.
pub open spec fn next_part_number(s: SessionView) -> int {
    s.parts.len() + 1 + (if s.phase == Phase::Uploading || s.phase == Phase::UploadingLast {
        1int
    } else {
        0int
    })
}

/// Of every upload, from any state on and whatever is reported: the parts
/// are sent with numbers that go up by one from part to part, so no number
/// is used twice and none is left out. From the beginning the numbers are 1,
/// 2, 3 and so on.
pub proof fn law_parts_are_numbered_in_order(s: SessionView, events: Seq<EventView>)
    requires
        s.wf(),
        fitting(s, events),
    ensures
        ({
            let sent = sent_parts(run(s, events).1);
            forall|i: int| 0 <= i < sent.len() ==> (#[trigger] sent[i]).0 == next_part_number(s) + i
        }),
    decreases events.len(),
{
    if events.len() > 0 {
        let (next, action) = s.step(events[0]);
        let rest = events.drop_first();
        law_parts_are_numbered_in_order(next, rest);
        let actions = run(s, events).1;
        let later = sent_parts(run(next, rest).1);
        assert(actions.drop_first() =~= run(next, rest).1);
        if reading_is_over(next.phase) {
            lemma_nothing_sent_once_reading_is_over(next, rest);
        }
        let sent = sent_parts(actions);
        assert forall|i: int| 0 <= i < sent.len() implies (#[trigger] sent[i]).0
            == next_part_number(s) + i by {
            if action is UploadPart {
                if i > 0 {
                    assert(sent[i] == later[i - 1]);
                }
            } else {
                assert(sent[i] == later[i]);
            }
        }
    }
}

/// No request is larger than a chunk: of every upload, from any state on and
/// whatever is reported, every part sent has at least one byte and at most as
/// many as a chunk holds, which is 100 MiB at most.
pub proof fn law_parts_fit_the_read_size(s: SessionView, events: Seq<EventView>)
    requires
        s.wf(),
        fitting(s, events),
    ensures
        ({
            let sent = sent_parts(run(s, events).1);
            forall|i: int|
                0 <= i < sent.len() ==> 0 < (#[trigger] sent[i]).1.len() <= s.read_len
                    <= MAX_READ_SIZE
        }),
    decreases events.len(),
{
    if events.len() > 0 {
        let (next, action) = s.step(events[0]);
        let rest = events.drop_first();
        law_parts_fit_the_read_size(next, rest);
        let actions = run(s, events).1;
        let later = sent_parts(run(next, rest).1);
        assert(actions.drop_first() =~= run(next, rest).1);
        let sent = sent_parts(actions);
        assert forall|i: int| 0 <= i < sent.len() implies 0 < (#[trigger] sent[i]).1.len()
            <= s.read_len <= MAX_READ_SIZE by {
            if action is UploadPart {
                if i > 0 {
                    assert(sent[i] == later[i - 1]);
                }
            } else {
                assert(sent[i] == later[i]);
            }
        }
    }
}

/// Only the last part is short: of every upload, from any state on and
/// whatever is reported, every part sent but the last one holds a full chunk.
pub proof fn law_only_the_last_part_is_short(s: SessionView, events: Seq<EventView>)
    requires
        s.wf(),
        fitting(s, events),
    ensures
        ({
            let sent = sent_parts(run(s, events).1);
            forall|i: int| 0 <= i < sent.len() - 1 ==> (#[trigger] sent[i]).1.len() == s.read_len
        }),
    decreases events.len(),
{
    if events.len() > 0 {
        let (next, action) = s.step(events[0]);
        let rest = events.drop_first();
        law_only_the_last_part_is_short(next, rest);
        let actions = run(s, events).1;
        let later = sent_parts(run(next, rest).1);
        assert(actions.drop_first() =~= run(next, rest).1);
        if reading_is_over(next.phase) {
            lemma_nothing_sent_once_reading_is_over(next, rest);
        }
        let sent = sent_parts(actions);
        assert forall|i: int| 0 <= i < sent.len() - 1 implies (#[trigger] sent[i]).1.len()
            == s.read_len by {
            if action is UploadPart {
                if i > 0 {
                    assert(sent[i] == later[i - 1]);
                }
            } else {
                assert(sent[i] == later[i]);
            }
        }
    }
}

/// Nothing is lost and nothing is added: of every upload, from any state on
/// and whatever is reported, the bytes gathered before and the bytes that the
/// reads gave, in the order in which they were read, are the bytes of the
/// parts sent, one part after the other, and after them the bytes that are
/// still gathered.
pub proof fn law_what_is_read_is_sent_or_kept(s: SessionView, events: Seq<EventView>)
    requires
        s.wf(),
        fitting(s, events),
    ensures
        s.gathered + bytes_read(s, events) == payload(sent_parts(run(s, events).1)) + run(
            s,
            events,
        ).0.gathered,
    decreases events.len(),
{
    if events.len() == 0 {
        assert(s.gathered + bytes_read(s, events) =~= payload(sent_parts(run(s, events).1))
            + s.gathered);
    } else {
        let (next, action) = s.step(events[0]);
        let rest = events.drop_first();
        law_what_is_read_is_sent_or_kept(next, rest);
        let actions = run(s, events).1;
        let later = sent_parts(run(next, rest).1);
        let end = run(next, rest).0;
        assert(actions.drop_first() =~= run(next, rest).1);
        let sent = sent_parts(actions);
        if action is UploadPart {
            assert(sent.drop_first() =~= later);
            assert(next.gathered =~= Seq::<u8>::empty());
        } else {
            assert(sent =~= later);
        }
        assert(s.gathered + bytes_read(s, events) =~= payload(sent) + end.gathered);
    }
}

proof fn lemma_chunks_after_a_full_one(head: Seq<u8>, tail: Seq<u8>, len: nat)
    requires
        len > 0,
        head.len() == len,
    ensures
        chunks_of(head + tail, len) == seq![head] + chunks_of(tail, len),
{
    let all = head + tail;
    if tail.len() == 0 {
        assert(all =~= head);
        assert(chunks_of(tail, len) =~= Seq::<Seq<u8>>::empty());
        assert(chunks_of(all, len) =~= seq![head] + chunks_of(tail, len));
    } else {
        assert(all.take(len as int) =~= head);
        assert(all.skip(len as int) =~= tail);
    }
}

proof fn lemma_numbered_chunks_head(after: int, head: Seq<u8>, more: Seq<Seq<u8>>)
    ensures
        numbered_chunks(after, seq![head] + more) == seq![(after + 1, head)] + numbered_chunks(
            after + 1,
            more,
        ),
{
    assert(numbered_chunks(after, seq![head] + more) =~= seq![(after + 1, head)]
        + numbered_chunks(after + 1, more));
}

proof fn lemma_full_chunks_from(s: SessionView, events: Seq<EventView>)
    requires
        s.wf(),
        fitting(s, events),
        run(s, events).0.phase == Phase::Completed,
    ensures
        sent_parts(run(s, events).1) == numbered_chunks(
            next_part_number(s) - 1,
            chunks_of(s.gathered + bytes_read(s, events), s.read_len),
        ),
    decreases events.len(),
{
    let len = s.read_len;
    let total = s.gathered + bytes_read(s, events);
    let sent = sent_parts(run(s, events).1);
    if reading_is_over(s.phase) {
        lemma_nothing_sent_once_reading_is_over(s, events);
        law_one_abort_one_completion(s, events);
        assert(s.phase != Phase::Aborting && s.phase != Phase::Aborted);
        assert(total =~= Seq::<u8>::empty());
        assert(sent =~= numbered_chunks(next_part_number(s) - 1, chunks_of(total, len)));
    } else {
        assert(events.len() > 0);
        let event = events[0];
        let (next, action) = s.step(event);
        let rest = events.drop_first();
        let later_bytes = bytes_read(next, rest);
        let later_sent = sent_parts(run(next, rest).1);
        assert(run(s, events).1.drop_first() =~= run(next, rest).1);
        law_one_abort_one_completion(next, rest);
        if next.phase.is_final() {
            lemma_finished_run_changes_nothing(next, rest);
        }
        lemma_full_chunks_from(next, rest);
        if reading_is_over(next.phase) {
            lemma_nothing_sent_once_reading_is_over(next, rest);
        }
        if action is UploadPart {
            let body = action->body;
            assert(sent =~= seq![(next_part_number(s), body)] + later_sent);
            if next.phase == Phase::Uploading {
                assert(body.len() == len);
                assert(total =~= body + later_bytes);
                assert(next.gathered + later_bytes =~= later_bytes);
                lemma_chunks_after_a_full_one(body, later_bytes, len);
                lemma_numbered_chunks_head(
                    next_part_number(s) - 1,
                    body,
                    chunks_of(later_bytes, len),
                );
            } else {
                assert(next.phase == Phase::UploadingLast);
                assert(total =~= body);
                assert(0 < body.len() < len);
                assert(chunks_of(body, len) =~= seq![body]);
                assert(later_sent =~= Seq::<(int, Seq<u8>)>::empty());
                assert(sent =~= numbered_chunks(next_part_number(s) - 1, seq![body]));
            }
        } else {
            assert(sent =~= later_sent);
            assert(total =~= next.gathered + later_bytes);
            assert(next_part_number(next) == next_part_number(s) || reading_is_over(next.phase));
            if reading_is_over(next.phase) {
                assert(next.phase == Phase::Completing);
                assert(total =~= Seq::<u8>::empty());
                assert(sent =~= numbered_chunks(next_part_number(s) - 1, chunks_of(total, len)));
            }
        }
    }
}

/// Every part is a full chunk but the last: an upload that went from the
/// beginning to a completed session has sent the bytes that its reads gave,
/// cut into chunks of the read size whatever the lengths of the single reads
/// were, each chunk as one part, numbered 1, 2, 3 and so on.
pub proof fn law_parts_are_full_chunks(s: SessionView, events: Seq<EventView>)
    requires
        s.wf(),
        s.phase == Phase::Idle,
        fitting(s, events),
        run(s, events).0.phase == Phase::Completed,
    ensures
        sent_parts(run(s, events).1) == numbered_chunks(
            0,
            chunks_of(bytes_read(s, events), s.read_len),
        ),
{
    lemma_full_chunks_from(s, events);
    assert(s.gathered + bytes_read(s, events) =~= bytes_read(s, events));
}

/// A completed upload has sent the file as it is. Where the reads gave `n`
/// bytes in all, the file went out in `n / read_len` parts, rounded up; the
/// parts are numbered 1, 2, 3 and so on without a gap or a repeat; each but
/// the last holds `read_len` bytes, and the last holds the rest, which is a
/// byte at least; their bytes, one part after the other, are the bytes read;
/// and the session was completed once, with these parts, and never aborted.
pub proof fn law_completed_upload_sends_the_file(s: SessionView, events: Seq<EventView>)
    requires
        s.wf(),
        s.phase == Phase::Idle,
        fitting(s, events),
        run(s, events).0.phase == Phase::Completed,
    ensures
        ({
            let (end, actions) = run(s, events);
            let sent = sent_parts(actions);
            let file = bytes_read(s, events);
            &&& sent.len() == part_count(file.len(), s.read_len)
            &&& sent.len() == end.parts.len()
            &&& forall|i: int| 0 <= i < sent.len() ==> (#[trigger] sent[i]).0 == i + 1
            &&& forall|i: int| 0 <= i < sent.len() - 1 ==> (#[trigger] sent[i]).1.len() == s.read_len
            &&& sent.len() > 0 && 0 < sent.last().1.len() <= s.read_len
            &&& payload(sent) == file
            &&& completion_calls(actions) == seq![end.parts]
            &&& abort_calls(actions) == 0
        }),
{
    let (end, actions) = run(s, events);
    let file = bytes_read(s, events);
    law_parts_are_full_chunks(s, events);
    law_chunks_cover_the_file(file, s.read_len);
    law_one_abort_one_completion(s, events);
    lemma_parts_taken_are_parts_sent(s, events);
    let chunks = chunks_of(file, s.read_len);
    let sent = sent_parts(actions);
    assert(sent.len() == chunks.len());
    assert forall|i: int| 0 <= i < sent.len() - 1 implies (#[trigger] sent[i]).1.len()
        == s.read_len by {
        assert(sent[i].1 == chunks[i]);
    }
    assert(sent.last().1 == chunks[chunks.len() - 1]);
}

proof fn lemma_parts_taken_are_parts_sent(s: SessionView, events: Seq<EventView>)
    requires
        s.wf(),
        fitting(s, events),
        run(s, events).0.phase == Phase::Completed,
    ensures
        run(s, events).0.parts.len() + 1 == next_part_number(s) + sent_parts(
            run(s, events).1,
        ).len(),
    decreases events.len(),
{
    if events.len() > 0 {
        let (next, action) = s.step(events[0]);
        let rest = events.drop_first();
        assert(run(s, events).1.drop_first() =~= run(next, rest).1);
        law_one_abort_one_completion(next, rest);
        if next.phase.is_final() {
            lemma_finished_run_changes_nothing(next, rest);
        }
        lemma_parts_taken_are_parts_sent(next, rest);
    }
}

} // verus!
