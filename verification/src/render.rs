//! The stream consumer: a state machine that turns the events of a streamed
//! response into writes and flushes on two sinks.

use crate::protocol::{assistant_text, assistant_text_of, StreamEvent, TokenUsage};
use crate::text::{decimal, push_decimal};
use vstd::prelude::*;

verus! {

/// The two independent output channels.
#[derive(Clone, Copy, Debug, PartialEq, Eq, Structural)]
pub enum Sink {
    /// Carries the answer text.
    Primary,
    /// Carries reasoning narration, diagnostics and metadata.
    Secondary,
}

/// One thing to do on a sink.
#[derive(Clone, Debug, PartialEq, Eq)]
pub enum Output {
    /// Append `text` to the sink.
    Write { sink: Sink, text: String },
    /// Force out what the sink has buffered.
    Flush { sink: Sink },
}

/// What an `Output` is in contracts.
pub enum OutputView {
    Write { sink: Sink, text: Seq<char> },
    Flush { sink: Sink },
}

impl View for Output {
    type V = OutputView;

    open spec fn view(&self) -> OutputView {
        match *self {
            Output::Write { sink, text } => OutputView::Write { sink, text: text@ },
            Output::Flush { sink } => OutputView::Flush { sink },
        }
    }
}

/// The views of a sequence of outputs, in order.
pub open spec fn output_views(outputs: Seq<Output>) -> Seq<OutputView> {
    Seq::new(outputs.len(), |i: int| outputs[i]@)
}

/// What the consumer remembers between two events.
#[derive(Clone, Debug, PartialEq, Eq)]
pub struct RenderState {
    /// Whether answer text went to the primary sink and has not been closed
    /// by a newline yet.
    pub printed_response: bool,
    /// The text of the reasoning summary line that is being rendered.
    pub reasoning_summary_buffer: String,
}

/// What a `RenderState` is in contracts.
pub struct RenderModel {
    pub printed_response: bool,
    pub summary: Seq<char>,
}

impl View for RenderState {
    type V = RenderModel;

    open spec fn view(&self) -> RenderModel {
        RenderModel {
            printed_response: self.printed_response,
            summary: self.reasoning_summary_buffer@,
        }
    }
}

/// The state of a consumer that has seen no event.
pub open spec fn initial_model() -> RenderModel {
    RenderModel { printed_response: false, summary: Seq::empty() }
}

/// What starts every render of the live summary line: a carriage return, so
/// that the line overwrites its previous render, and a label.
pub open spec fn summary_prefix() -> Seq<char> {
    "\r(reasoning summary) "@
}

/// The label of a line of raw reasoning content.
pub open spec fn detail_prefix() -> Seq<char> {
    "(reasoning detail) "@
}

/// The label of a rate limit line.
pub open spec fn rate_limits_prefix() -> Seq<char> {
    "Rate limits: "@
}

/// The line terminator.
pub open spec fn newline() -> Seq<char> {
    "\n"@
}

/// The token usage report, without its line terminator: the five counters,
/// each under its label.
pub open spec fn usage_line(usage: TokenUsage) -> Seq<char> {
    "Token usage: total="@ + decimal(usage.total_tokens as int) + " input="@ + decimal(
        usage.input_tokens as int,
    ) + " cached_input="@ + decimal(usage.cached_input_tokens as int) + " output="@ + decimal(
        usage.output_tokens as int,
    ) + " reasoning_output="@ + decimal(usage.reasoning_output_tokens as int)
}

/// A write of `text` to the primary sink, made visible at once.
pub open spec fn answer_outputs(text: Seq<char>) -> Seq<OutputView> {
    seq![
        OutputView::Write { sink: Sink::Primary, text },
        OutputView::Flush { sink: Sink::Primary },
    ]
}

/// A write of `text` to the secondary sink.
pub open spec fn note_outputs(text: Seq<char>) -> Seq<OutputView> {
    seq![OutputView::Write { sink: Sink::Secondary, text }]
}

/// Ends the live summary line, if one is open.
pub open spec fn close_summary(s: RenderModel) -> Seq<OutputView> {
    if s.summary.len() > 0 {
        note_outputs(newline())
    } else {
        Seq::empty()
    }
}

/// Ends the answer with a newline, if answer text is open.
pub open spec fn close_response(s: RenderModel) -> Seq<OutputView> {
    if s.printed_response {
        answer_outputs(newline())
    } else {
        Seq::empty()
    }
}

/// The usage report of a completed response, if it came with one.
pub open spec fn usage_outputs(token_usage: Option<TokenUsage>) -> Seq<OutputView> {
    match token_usage {
        Some(usage) => note_outputs(usage_line(usage) + newline()),
        None => Seq::empty(),
    }
}

/// What one event makes the consumer do, in order.
pub open spec fn step_outputs(s: RenderModel, event: StreamEvent) -> Seq<OutputView> {
    match event {
        StreamEvent::Created => Seq::empty(),
        StreamEvent::OutputTextDelta(delta) => answer_outputs(delta@),
        StreamEvent::OutputItemAdded(item) | StreamEvent::OutputItemDone(item) => {
            match assistant_text_of(item) {
                Some(text) => if s.printed_response {
                    Seq::empty()
                } else {
                    answer_outputs(text)
                },
                None => Seq::empty(),
            }
        },
        StreamEvent::ReasoningSummaryDelta(delta) => seq![
            OutputView::Write {
                sink: Sink::Secondary,
                text: summary_prefix() + (s.summary + delta@),
            },
            OutputView::Flush { sink: Sink::Secondary },
        ],
        StreamEvent::ReasoningContentDelta(delta) => note_outputs(
            detail_prefix() + delta@ + newline(),
        ),
        StreamEvent::ReasoningSummaryPartAdded => close_summary(s),
        StreamEvent::RateLimits(snapshot) => note_outputs(
            rate_limits_prefix() + snapshot@ + newline(),
        ),
        StreamEvent::Completed { token_usage } => close_summary(s) + close_response(s)
            + usage_outputs(token_usage),
    }
}

/// The state in which one event leaves the consumer.
pub open spec fn step_state(s: RenderModel, event: StreamEvent) -> RenderModel {
    match event {
        StreamEvent::Created => s,
        StreamEvent::OutputTextDelta(_) => RenderModel { printed_response: true, ..s },
        StreamEvent::OutputItemAdded(item) | StreamEvent::OutputItemDone(item) => {
            if assistant_text_of(item) is Some {
                RenderModel { printed_response: true, ..s }
            } else {
                s
            }
        },
        StreamEvent::ReasoningSummaryDelta(delta) => RenderModel {
            summary: s.summary + delta@,
            ..s
        },
        StreamEvent::ReasoningContentDelta(_) => s,
        StreamEvent::ReasoningSummaryPartAdded => RenderModel { summary: Seq::empty(), ..s },
        StreamEvent::RateLimits(_) => s,
        StreamEvent::Completed { .. } => initial_model(),
    }
}

/// What the consumer does once the stream has ended: no line is left open on
/// either sink.
pub open spec fn finish_outputs(s: RenderModel) -> Seq<OutputView> {
    close_response(s) + close_summary(s)
}

/// Renders the token usage report, without its line terminator.
pub fn token_usage_line(usage: &TokenUsage) -> (line: String)
    ensures
        line@ == usage_line(*usage),
{
    let mut line = String::from_str("Token usage: total=");
    push_decimal(&mut line, usage.total_tokens);
    line.append(" input=");
    push_decimal(&mut line, usage.input_tokens);
    line.append(" cached_input=");
    push_decimal(&mut line, usage.cached_input_tokens);
    line.append(" output=");
    push_decimal(&mut line, usage.output_tokens);
    line.append(" reasoning_output=");
    push_decimal(&mut line, usage.reasoning_output_tokens);
    line
}

/// Adds a write of `text` on `sink` to `out`.
fn push_write(out: &mut Vec<Output>, sink: Sink, text: String)
    ensures
        output_views(final(out)@) == output_views(old(out)@).push(
            OutputView::Write { sink, text: text@ },
        ),
{
    out.push(Output::Write { sink, text });
    assert(output_views(out@) =~= output_views(old(out)@).push(
        OutputView::Write { sink, text: text@ },
    ));
}

/// Adds a flush of `sink` to `out`.
fn push_flush(out: &mut Vec<Output>, sink: Sink)
    ensures
        output_views(final(out)@) == output_views(old(out)@).push(OutputView::Flush { sink }),
{
    out.push(Output::Flush { sink });
    assert(output_views(out@) =~= output_views(old(out)@).push(OutputView::Flush { sink }));
}

/// Adds to `out` a write of `text` on the primary sink and its flush.
fn push_answer(out: &mut Vec<Output>, text: String)
    ensures
        output_views(final(out)@) == output_views(old(out)@) + answer_outputs(text@),
{
    push_write(out, Sink::Primary, text);
    push_flush(out, Sink::Primary);
    assert(output_views(out@) =~= output_views(old(out)@) + answer_outputs(text@));
}

/// Adds to `out` a write of `text` on the secondary sink.
fn push_note(out: &mut Vec<Output>, text: String)
    ensures
        output_views(final(out)@) == output_views(old(out)@) + note_outputs(text@),
{
    push_write(out, Sink::Secondary, text);
    assert(output_views(out@) =~= output_views(old(out)@) + note_outputs(text@));
}

impl RenderState {
    /// The state of a consumer that has seen no event.
    pub fn new() -> (s: RenderState)
        ensures
            s@ == initial_model(),
    {
        RenderState { printed_response: false, reasoning_summary_buffer: String::new() }
    }

    /// Ends the live summary line, if one is open, and forgets its text.
    fn end_summary(&mut self, out: &mut Vec<Output>)
        ensures
            output_views(final(out)@) == output_views(old(out)@) + close_summary(old(self)@),
            final(self)@ == (RenderModel { summary: Seq::empty(), ..old(self)@ }),
    {
        if !self.reasoning_summary_buffer.as_str().is_empty() {
            push_note(out, String::from_str("\n"));
            self.reasoning_summary_buffer = String::new();
        } else {
            assert(output_views(out@) =~= output_views(old(out)@) + close_summary(old(self)@));
            assert(self.reasoning_summary_buffer@ =~= Seq::empty());
        }
    }

    /// Takes one event of the stream: says what to do on the sinks, in order,
    /// and moves to the next state.
    pub fn step(&mut self, event: StreamEvent) -> (out: Vec<Output>)
        ensures
            output_views(out@) == step_outputs(old(self)@, event),
            final(self)@ == step_state(old(self)@, event),
    {
        let mut out: Vec<Output> = Vec::new();
        assert(output_views(out@) =~= Seq::empty());
        match event {
            StreamEvent::Created => {},
            StreamEvent::OutputTextDelta(delta) => {
                push_answer(&mut out, delta);
                self.printed_response = true;
            },
            StreamEvent::OutputItemAdded(item) | StreamEvent::OutputItemDone(item) => {
                match assistant_text(&item) {
                    Some(text) => {
                        if !self.printed_response {
                            push_answer(&mut out, text);
                            self.printed_response = true;
                        }
                    },
                    None => {},
                }
            },
            StreamEvent::ReasoningSummaryDelta(delta) => {
                self.reasoning_summary_buffer.append(delta.as_str());
                let mut line = String::from_str("\r(reasoning summary) ");
                line.append(self.reasoning_summary_buffer.as_str());
                push_write(&mut out, Sink::Secondary, line);
                push_flush(&mut out, Sink::Secondary);
            },
            StreamEvent::ReasoningContentDelta(delta) => {
                let mut line = String::from_str("(reasoning detail) ");
                line.append(delta.as_str());
                line.append("\n");
                push_note(&mut out, line);
            },
            StreamEvent::ReasoningSummaryPartAdded => {
                self.end_summary(&mut out);
            },
            StreamEvent::RateLimits(snapshot) => {
                let mut line = String::from_str("Rate limits: ");
                line.append(snapshot.as_str());
                line.append("\n");
                push_note(&mut out, line);
            },
            StreamEvent::Completed { token_usage } => {
                self.end_summary(&mut out);
                if self.printed_response {
                    push_answer(&mut out, String::from_str("\n"));
                    self.printed_response = false;
                }
                match token_usage {
                    Some(usage) => {
                        let mut line = token_usage_line(&usage);
                        line.append("\n");
                        push_note(&mut out, line);
                    },
                    None => {},
                }
            },
        }
        assert(output_views(out@) =~= step_outputs(old(self)@, event));
        out
    }

    /// Ends the rendering after the last event: closes the answer and the
    /// live summary line where they are open.
    pub fn finish(self) -> (out: Vec<Output>)
        ensures
            output_views(out@) == finish_outputs(self@),
    {
        let mut out: Vec<Output> = Vec::new();
        assert(output_views(out@) =~= Seq::empty());
        if self.printed_response {
            push_answer(&mut out, String::from_str("\n"));
        }
        if !self.reasoning_summary_buffer.as_str().is_empty() {
            push_note(&mut out, String::from_str("\n"));
        }
        assert(output_views(out@) =~= finish_outputs(self@));
        out
    }
}

/// The text that `outputs` write to `sink`, in order, as one text.
pub open spec fn written(outputs: Seq<OutputView>, sink: Sink) -> Seq<char>
    decreases outputs.len(),
{
    if outputs.len() == 0 {
        Seq::empty()
    } else {
        written(outputs.drop_last(), sink) + match outputs.last() {
            OutputView::Write { sink: to, text } => if to == sink {
                text
            } else {
                Seq::empty()
            },
            OutputView::Flush { .. } => Seq::empty(),
        }
    }
}

/// What is written by two runs of outputs, one after the other, is what the
/// first writes followed by what the second writes.
pub proof fn lemma_written_concat(a: Seq<OutputView>, b: Seq<OutputView>, sink: Sink)
    ensures
        written(a + b, sink) == written(a, sink) + written(b, sink),
    decreases b.len(),
{
    if b.len() == 0 {
        assert(a + b =~= a);
        assert(written(a, sink) + written(b, sink) =~= written(a, sink));
    } else {
        lemma_written_concat(a, b.drop_last(), sink);
        assert((a + b).drop_last() =~= a + b.drop_last());
        assert((a + b).last() == b.last());
        assert(written(a + b, sink) =~= written(a, sink) + written(b, sink));
    }
}

/// What a single output writes to `sink`.
pub proof fn lemma_written_one(output: OutputView, sink: Sink)
    ensures
        written(seq![output], sink) == match output {
            OutputView::Write { sink: to, text } => if to == sink {
                text
            } else {
                Seq::empty()
            },
            OutputView::Flush { .. } => Seq::empty(),
        },
{
    let one = seq![output];
    assert(one.drop_last() =~= Seq::empty());
    assert(written(one.drop_last(), sink) =~= Seq::empty());
    assert(written(one, sink) =~= match output {
        OutputView::Write { sink: to, text } => if to == sink {
            text
        } else {
            Seq::empty()
        },
        OutputView::Flush { .. } => Seq::empty(),
    });
}

/// Answer text reaches the primary sink as it is, and the secondary sink
/// not at all.
pub proof fn lemma_written_answer(text: Seq<char>)
    ensures
        written(answer_outputs(text), Sink::Primary) == text,
        written(answer_outputs(text), Sink::Secondary) == Seq::<char>::empty(),
{
    let w = OutputView::Write { sink: Sink::Primary, text };
    let f = OutputView::Flush { sink: Sink::Primary };
    assert(answer_outputs(text) =~= seq![w] + seq![f]);
    lemma_written_concat(seq![w], seq![f], Sink::Primary);
    lemma_written_concat(seq![w], seq![f], Sink::Secondary);
    lemma_written_one(w, Sink::Primary);
    lemma_written_one(f, Sink::Primary);
    lemma_written_one(w, Sink::Secondary);
    lemma_written_one(f, Sink::Secondary);
    assert(written(answer_outputs(text), Sink::Primary) =~= text);
    assert(written(answer_outputs(text), Sink::Secondary) =~= Seq::empty());
}

/// A note reaches the secondary sink as it is, and the primary sink not at
/// all.
pub proof fn lemma_written_note(text: Seq<char>)
    ensures
        written(note_outputs(text), Sink::Secondary) == text,
        written(note_outputs(text), Sink::Primary) == Seq::<char>::empty(),
{
    let w = OutputView::Write { sink: Sink::Secondary, text };
    lemma_written_one(w, Sink::Primary);
    lemma_written_one(w, Sink::Secondary);
}

/// Collects the text that `outputs` write to `sink`: what a sink that keeps
/// everything would hold afterwards.
pub fn sink_text(outputs: &Vec<Output>, sink: Sink) -> (text: String)
    ensures
        text@ == written(output_views(outputs@), sink),
{
    let mut text = String::new();
    let mut i: usize = 0;
    while i < outputs.len()
        invariant
            0 <= i <= outputs.len(),
            text@ == written(output_views(outputs@).take(i as int), sink),
        decreases outputs.len() - i,
    {
        proof {
            let views = output_views(outputs@);
            assert(views.take(i + 1).drop_last() =~= views.take(i as int));
            assert(views.take(i + 1).last() == outputs@[i as int]@);
        }
        match &outputs[i] {
            Output::Write { sink: to, text: piece } => {
                if *to == sink {
                    text.append(piece.as_str());
                }
            },
            Output::Flush { .. } => {},
        }
        assert(text@ =~= written(output_views(outputs@).take(i + 1), sink));
        i += 1;
    }
    assert(output_views(outputs@).take(i as int) =~= output_views(outputs@));
    text
}

} // verus!
