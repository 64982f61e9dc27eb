//! Draining a whole stream: the consumer run over the events of one response,
//! and what holds of every such run.

use crate::protocol::StreamEvent;
use crate::render::{
    close_response, close_summary, detail_prefix, finish_outputs, initial_model,
    lemma_written_answer, lemma_written_concat, lemma_written_note, lemma_written_one, newline,
    output_views, rate_limits_prefix, step_outputs, step_state, summary_prefix, usage_line,
    usage_outputs, written, Output, OutputView, RenderModel, RenderState, Sink,
};
use vstd::prelude::*;

verus! {

/// The state after `events`, taken in order from state `s`.
pub open spec fn run_state(s: RenderModel, events: Seq<StreamEvent>) -> RenderModel
    decreases events.len(),
{
    if events.len() == 0 {
        s
    } else {
        step_state(run_state(s, events.drop_last()), events.last())
    }
}

/// Everything that `events`, taken in order from state `s`, make the
/// consumer do.
pub open spec fn run_outputs(s: RenderModel, events: Seq<StreamEvent>) -> Seq<OutputView>
    decreases events.len(),
{
    if events.len() == 0 {
        Seq::empty()
    } else {
        run_outputs(s, events.drop_last()) + step_outputs(
            run_state(s, events.drop_last()),
            events.last(),
        )
    }
}

/// How many events a stream delivers before its first failure.
pub open spec fn delivered<E>(items: Seq<Result<StreamEvent, E>>) -> nat
    decreases items.len(),
{
    if items.len() == 0 || items[0] is Err {
        0
    } else {
        1 + delivered(items.drop_first())
    }
}

/// The events that a stream delivers before its first failure.
pub open spec fn delivered_events<E>(items: Seq<Result<StreamEvent, E>>) -> Seq<StreamEvent> {
    Seq::new(delivered(items), |i: int| items[i]->Ok_0)
}

/// What draining a stream does on the sinks: the outputs of the events that
/// arrive before the first failure and, where the stream ends without one,
/// the closing of the lines that are still open.
pub open spec fn consumed_outputs<E>(items: Seq<Result<StreamEvent, E>>) -> Seq<OutputView> {
    let events = delivered_events(items);
    if delivered(items) < items.len() {
        run_outputs(initial_model(), events)
    } else {
        run_outputs(initial_model(), events) + finish_outputs(run_state(initial_model(), events))
    }
}

/// How draining a stream ends: with the first failure that the stream
/// surfaces, unchanged, or else well.
pub open spec fn consumed_result<E>(items: Seq<Result<StreamEvent, E>>) -> Result<(), E> {
    if delivered(items) < items.len() {
        Err(items[delivered(items) as int]->Err_0)
    } else {
        Ok(())
    }
}

/// The events before the first failure are no more than the stream holds,
/// all of them are events, and what follows them, if anything, is a failure.
pub proof fn lemma_delivered<E>(items: Seq<Result<StreamEvent, E>>)
    ensures
        delivered(items) <= items.len(),
        forall|i: int| 0 <= i < delivered(items) ==> (#[trigger] items[i]) is Ok,
        delivered(items) < items.len() ==> items[delivered(items) as int] is Err,
    decreases items.len(),
{
    if items.len() == 0 || items[0] is Err {
    } else {
        let rest = items.drop_first();
        lemma_delivered(rest);
        assert forall|i: int| 0 <= i < delivered(items) implies (#[trigger] items[i]) is Ok by {
            if i > 0 {
                assert(items[i] == rest[i - 1]);
            }
        }
        if delivered(items) < items.len() {
            assert(items[delivered(items) as int] == rest[delivered(rest) as int]);
        }
    }
}

/// A stream whose first `n` items are events delivers at least those; it
/// delivers exactly those where a failure follows them or nothing does.
pub proof fn lemma_delivered_prefix<E>(items: Seq<Result<StreamEvent, E>>, n: int)
    requires
        0 <= n <= items.len(),
        forall|i: int| 0 <= i < n ==> (#[trigger] items[i]) is Ok,
    ensures
        n <= delivered(items),
        n == items.len() || items[n] is Err ==> delivered(items) == n,
{
    lemma_delivered(items);
    if n < delivered(items) {
        if n < items.len() {
            assert(items[n] is Ok);
        }
    } else if delivered(items) < n {
        assert(items[delivered(items) as int] is Ok);
    }
}

/// What came of draining a stream.
pub struct Consumed<E> {
    /// What was done on the sinks, in order.
    pub outputs: Vec<Output>,
    /// The failure that ended the draining, if one did.
    pub result: Result<(), E>,
}

/// Drains `items`, the events of one streamed response in the order of
/// arrival, and renders them. A failure in the stream ends the draining at
/// once and is handed back as it came.
pub fn consume_stream<E>(items: Vec<Result<StreamEvent, E>>) -> (r: Consumed<E>)
    ensures
        output_views(r.outputs@) == consumed_outputs(items@),
        r.result == consumed_result(items@),
{
    let ghost all = items@;
    let mut state = RenderState::new();
    let mut outputs: Vec<Output> = Vec::new();
    assert(output_views(outputs@) =~= Seq::empty());
    let ghost mut seen: Seq<StreamEvent> = Seq::empty();
    for item in it: items.into_iter()
        invariant
            it.seq() == all,
            seen.len() == it.index(),
            forall|i: int| 0 <= i < seen.len() ==> all[i] == Ok::<StreamEvent, E>(seen[i]),
            state@ == run_state(initial_model(), seen),
            output_views(outputs@) == run_outputs(initial_model(), seen),
    {
        match item {
            Ok(event) => {
                let mut more = state.step(event);
                proof {
                    let next = seen.push(event);
                    assert(next.drop_last() =~= seen);
                    assert(output_views(outputs@ + more@) =~= output_views(outputs@)
                        + output_views(more@));
                    seen = next;
                }
                outputs.append(&mut more);
            },
            Err(error) => {
                proof {
                    lemma_delivered_prefix(all, seen.len() as int);
                    assert(delivered_events(all) =~= seen);
                }
                return Consumed { outputs, result: Err(error) };
            },
        }
    }
    proof {
        lemma_delivered_prefix(all, seen.len() as int);
        assert(delivered_events(all) =~= seen);
    }
    let mut last = state.finish();
    proof {
        assert(output_views(outputs@ + last@) =~= output_views(outputs@) + output_views(last@));
    }
    outputs.append(&mut last);
    Consumed { outputs, result: Ok(()) }
}

/// Events taken in two runs, one after the other, do what they do taken in
/// one run.
pub proof fn lemma_run_concat(s: RenderModel, a: Seq<StreamEvent>, b: Seq<StreamEvent>)
    ensures
        run_state(s, a + b) == run_state(run_state(s, a), b),
        run_outputs(s, a + b) == run_outputs(s, a) + run_outputs(run_state(s, a), b),
    decreases b.len(),
{
    if b.len() == 0 {
        assert(a + b =~= a);
        assert(run_outputs(s, a) + run_outputs(run_state(s, a), b) =~= run_outputs(s, a));
    } else {
        lemma_run_concat(s, a, b.drop_last());
        assert((a + b).drop_last() =~= a + b.drop_last());
        assert((a + b).last() == b.last());
        assert(run_outputs(s, a + b) =~= run_outputs(s, a) + run_outputs(run_state(s, a), b));
    }
}

/// Draining a stream that is already exhausted does nothing on either sink
/// and ends well.
pub proof fn lemma_exhausted_stream_is_silent<E>()
    ensures
        consumed_outputs(Seq::<Result<StreamEvent, E>>::empty()) == Seq::<OutputView>::empty(),
        consumed_result(Seq::<Result<StreamEvent, E>>::empty()) == Ok::<(), E>(()),
{
    let items = Seq::<Result<StreamEvent, E>>::empty();
    assert(delivered_events(items) =~= Seq::empty());
    assert(consumed_outputs(items) =~= Seq::empty());
}

/// Answer text is never printed twice: while answer text is open on the
/// primary sink, an item that brings the answer in full does nothing and
/// changes nothing.
pub proof fn lemma_item_after_answer_is_silent(s: RenderModel, event: StreamEvent)
    requires
        s.printed_response,
        event is OutputItemAdded || event is OutputItemDone,
    ensures
        step_outputs(s, event) == Seq::<OutputView>::empty(),
        step_state(s, event) == s,
{
}

/// A completion event leaves the consumer as new, so a stream that ends
/// right after one has nothing left to close.
pub proof fn lemma_completion_closes_everything(s: RenderModel, event: StreamEvent)
    requires
        event is Completed,
    ensures
        step_state(s, event) == initial_model(),
        finish_outputs(step_state(s, event)) == Seq::<OutputView>::empty(),
{
    assert(finish_outputs(initial_model()) =~= Seq::empty());
}

/// Whether `text` leaves no line open: it is empty or ends with a newline.
pub open spec fn ends_line(text: Seq<char>) -> bool {
    text.len() == 0 || text.last() == '\n'
}

/// While no answer text is open, the primary sink holds whole lines only.
proof fn lemma_run_keeps_primary_closed(events: Seq<StreamEvent>)
    ensures
        !run_state(initial_model(), events).printed_response ==> ends_line(
            written(run_outputs(initial_model(), events), Sink::Primary),
        ),
    decreases events.len(),
{
    reveal_strlit("\n");
    if events.len() > 0 {
        let before = events.drop_last();
        lemma_run_keeps_primary_closed(before);
        let s = run_state(initial_model(), before);
        let done = run_outputs(initial_model(), before);
        let now = step_outputs(s, events.last());
        lemma_written_concat(done, now, Sink::Primary);
        if !step_state(s, events.last()).printed_response {
            lemma_step_primary(s, events.last());
        }
    }
}

/// What one event that leaves no answer text open writes to the primary
/// sink: the closing newline where answer text was open, else nothing.
proof fn lemma_step_primary(s: RenderModel, event: StreamEvent)
    requires
        !step_state(s, event).printed_response,
    ensures
        written(step_outputs(s, event), Sink::Primary) == if s.printed_response {
            newline()
        } else {
            Seq::<char>::empty()
        },
{
    let none = Seq::<OutputView>::empty();
    assert(written(none, Sink::Primary) =~= Seq::empty());
    match event {
        StreamEvent::Completed { token_usage } => {
            let a = close_summary(s);
            let b = close_response(s);
            let c = usage_outputs(token_usage);
            lemma_written_concat(a + b, c, Sink::Primary);
            lemma_written_concat(a, b, Sink::Primary);
            lemma_written_note(newline());
            lemma_written_answer(newline());
            if token_usage is Some {
                lemma_written_note(usage_line(token_usage->Some_0) + newline());
            }
            assert(written(a, Sink::Primary) =~= Seq::empty());
            assert(written(c, Sink::Primary) =~= Seq::empty());
            assert(written(step_outputs(s, event), Sink::Primary) =~= written(b, Sink::Primary));
        },
        StreamEvent::ReasoningSummaryDelta(delta) => {
            let line = summary_prefix() + (s.summary + delta@);
            let w = OutputView::Write { sink: Sink::Secondary, text: line };
            let f = OutputView::Flush { sink: Sink::Secondary };
            assert(step_outputs(s, event) =~= seq![w] + seq![f]);
            lemma_written_concat(seq![w], seq![f], Sink::Primary);
            lemma_written_one(w, Sink::Primary);
            lemma_written_one(f, Sink::Primary);
            assert(written(step_outputs(s, event), Sink::Primary) =~= Seq::empty());
        },
        StreamEvent::ReasoningContentDelta(delta) => {
            lemma_written_note(detail_prefix() + delta@ + newline());
        },
        StreamEvent::ReasoningSummaryPartAdded => {
            lemma_written_note(newline());
        },
        StreamEvent::RateLimits(snapshot) => {
            lemma_written_note(rate_limits_prefix() + snapshot@ + newline());
        },
        _ => {},
    }
}

/// A stream that ends without a failure never leaves a line open on the
/// primary sink, whatever its events are and whether or not a completion
/// event is among them.
pub proof fn lemma_primary_sink_ends_line<E>(items: Seq<Result<StreamEvent, E>>)
    requires
        delivered(items) == items.len(),
    ensures
        ends_line(written(consumed_outputs(items), Sink::Primary)),
{
    reveal_strlit("\n");
    let events = delivered_events(items);
    let s = run_state(initial_model(), events);
    let done = run_outputs(initial_model(), events);
    lemma_run_keeps_primary_closed(events);
    lemma_written_concat(done, finish_outputs(s), Sink::Primary);
    lemma_written_concat(close_response(s), close_summary(s), Sink::Primary);
    lemma_written_answer(newline());
    lemma_written_note(newline());
    assert(written(Seq::<OutputView>::empty(), Sink::Primary) =~= Seq::empty());
    if s.printed_response {
        assert(written(finish_outputs(s), Sink::Primary) =~= newline());
    } else {
        assert(written(finish_outputs(s), Sink::Primary) =~= Seq::empty());
        assert(written(consumed_outputs(items), Sink::Primary) =~= written(done, Sink::Primary));
    }
}

/// A stream that ends without a failure while a summary line is open has
/// that line closed: the last thing on the secondary sink is a newline.
pub proof fn lemma_open_summary_is_closed<E>(items: Seq<Result<StreamEvent, E>>)
    requires
        delivered(items) == items.len(),
        run_state(initial_model(), delivered_events(items)).summary.len() > 0,
    ensures
        written(consumed_outputs(items), Sink::Secondary).len() > 0,
        written(consumed_outputs(items), Sink::Secondary).last() == '\n',
{
    reveal_strlit("\n");
    let events = delivered_events(items);
    let s = run_state(initial_model(), events);
    let done = run_outputs(initial_model(), events);
    lemma_written_concat(done, finish_outputs(s), Sink::Secondary);
    lemma_written_concat(close_response(s), close_summary(s), Sink::Secondary);
    lemma_written_answer(newline());
    lemma_written_note(newline());
    assert(written(Seq::<OutputView>::empty(), Sink::Secondary) =~= Seq::empty());
    assert(written(finish_outputs(s), Sink::Secondary) =~= newline());
}

/// The fragments of answer text that `events` bring, in order, as one text.
pub open spec fn joined_deltas(events: Seq<StreamEvent>) -> Seq<char>
    decreases events.len(),
{
    if events.len() == 0 {
        Seq::empty()
    } else {
        joined_deltas(events.drop_last()) + match events.last() {
            StreamEvent::OutputTextDelta(delta) => delta@,
            _ => Seq::empty(),
        }
    }
}

/// Fragments of answer text reach the primary sink as they come: a run of
/// text deltas puts exactly their texts there, in the order of arrival, and
/// nothing on the secondary sink.
pub proof fn lemma_deltas_reach_primary_sink(events: Seq<StreamEvent>)
    requires
        forall|i: int| 0 <= i < events.len() ==> (#[trigger] events[i]) is OutputTextDelta,
    ensures
        written(run_outputs(initial_model(), events), Sink::Primary) == joined_deltas(events),
        written(run_outputs(initial_model(), events), Sink::Secondary) == Seq::<char>::empty(),
    decreases events.len(),
{
    if events.len() == 0 {
        assert(written(run_outputs(initial_model(), events), Sink::Primary) =~= Seq::empty());
        assert(written(run_outputs(initial_model(), events), Sink::Secondary) =~= Seq::empty());
    } else {
        let before = events.drop_last();
        assert forall|i: int| 0 <= i < before.len() implies (
        #[trigger] before[i]) is OutputTextDelta by {
            assert(before[i] == events[i]);
        }
        lemma_deltas_reach_primary_sink(before);
        let s = run_state(initial_model(), before);
        let done = run_outputs(initial_model(), before);
        let last = events[events.len() - 1];
        assert(last is OutputTextDelta);
        let text = last->OutputTextDelta_0@;
        lemma_written_answer(text);
        lemma_written_concat(done, step_outputs(s, last), Sink::Primary);
        lemma_written_concat(done, step_outputs(s, last), Sink::Secondary);
        assert(written(run_outputs(initial_model(), events), Sink::Secondary) =~= Seq::empty());
    }
}

} // verus!
