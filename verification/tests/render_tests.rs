use prompt_pipeline::protocol::{assistant_text, ContentItem, ResponseItem, StreamEvent, TokenUsage};
use prompt_pipeline::render::{sink_text, token_usage_line, Output, RenderState, Sink};
use prompt_pipeline::stream::{consume_stream, Consumed};

fn assistant_message(text: &str) -> ResponseItem {
    ResponseItem::Message {
        id: None,
        role: "assistant".to_string(),
        content: vec![ContentItem::OutputText { text: text.to_string() }],
    }
}

fn write(sink: Sink, text: &str) -> Output {
    Output::Write { sink, text: text.to_string() }
}

fn drain(events: Vec<StreamEvent>) -> Vec<Output> {
    let items: Vec<Result<StreamEvent, String>> = events.into_iter().map(Ok).collect();
    let Consumed { outputs, result } = consume_stream(items);
    assert_eq!(result, Ok(()));
    outputs
}

#[test]
fn assistant_text_handles_basic_message() {
    let item = ResponseItem::Message {
        id: None,
        role: "assistant".to_string(),
        content: vec![
            ContentItem::OutputText {
                text: "Hello".to_string(),
            },
            ContentItem::OutputText {
                text: " world".to_string(),
            },
        ],
    };
    assert_eq!(assistant_text(&item), Some("Hello world".to_string()));
}

#[test]
fn assistant_text_ignores_other_roles() {
    for role in ["user", "developer", "system", "", "Assistant", "assistant "] {
        let item = ResponseItem::Message {
            id: None,
            role: role.to_string(),
            content: vec![ContentItem::OutputText { text: "Hello".to_string() }],
        };
        assert_eq!(assistant_text(&item), None);
    }
}

#[test]
fn assistant_text_ignores_images() {
    let only_image = ResponseItem::Message {
        id: None,
        role: "assistant".to_string(),
        content: vec![ContentItem::InputImage { image_url: "data:image/png;base64,AAAA".to_string() }],
    };
    assert_eq!(assistant_text(&only_image), None);

    let mixed = ResponseItem::Message {
        id: Some("msg_1".to_string()),
        role: "assistant".to_string(),
        content: vec![
            ContentItem::InputText { text: "a".to_string() },
            ContentItem::InputImage { image_url: "http://example.invalid/x.png".to_string() },
            ContentItem::OutputText { text: "b".to_string() },
        ],
    };
    assert_eq!(assistant_text(&mixed), Some("ab".to_string()));
}

#[test]
fn assistant_text_of_empty_message_is_none() {
    let no_content = ResponseItem::Message {
        id: None,
        role: "assistant".to_string(),
        content: vec![],
    };
    assert_eq!(assistant_text(&no_content), None);
    let empty_text = ResponseItem::Message {
        id: None,
        role: "assistant".to_string(),
        content: vec![
            ContentItem::OutputText { text: String::new() },
            ContentItem::InputText { text: String::new() },
        ],
    };
    assert_eq!(assistant_text(&empty_text), None);
    assert_eq!(assistant_text(&ResponseItem::Other), None);
}

#[test]
fn deltas_reach_primary_sink_in_order() {
    let outputs = drain(vec![
        StreamEvent::Created,
        StreamEvent::OutputTextDelta("Hi".to_string()),
        StreamEvent::OutputTextDelta(" there".to_string()),
        StreamEvent::Completed { token_usage: None },
    ]);
    assert_eq!(sink_text(&outputs, Sink::Primary), "Hi there\n");
    assert_eq!(sink_text(&outputs, Sink::Secondary), "");
    assert_eq!(
        outputs,
        vec![
            write(Sink::Primary, "Hi"),
            Output::Flush { sink: Sink::Primary },
            write(Sink::Primary, " there"),
            Output::Flush { sink: Sink::Primary },
            write(Sink::Primary, "\n"),
            Output::Flush { sink: Sink::Primary },
        ]
    );
}

#[test]
fn full_item_is_printed_once() {
    let outputs = drain(vec![
        StreamEvent::OutputItemDone(assistant_message("Full reply")),
        StreamEvent::Completed { token_usage: None },
    ]);
    assert_eq!(sink_text(&outputs, Sink::Primary), "Full reply\n");
    assert_eq!(sink_text(&outputs, Sink::Secondary), "");
}

#[test]
fn full_item_after_delta_is_not_repeated() {
    let outputs = drain(vec![
        StreamEvent::OutputTextDelta("Full reply".to_string()),
        StreamEvent::OutputItemDone(assistant_message("Full reply")),
        StreamEvent::Completed { token_usage: None },
    ]);
    assert_eq!(sink_text(&outputs, Sink::Primary), "Full reply\n");

    let twice = drain(vec![
        StreamEvent::OutputItemAdded(assistant_message("Full reply")),
        StreamEvent::OutputItemDone(assistant_message("Full reply")),
        StreamEvent::Completed { token_usage: None },
    ]);
    assert_eq!(sink_text(&twice, Sink::Primary), "Full reply\n");
}

#[test]
fn item_without_assistant_text_prints_nothing() {
    let user = ResponseItem::Message {
        id: None,
        role: "user".to_string(),
        content: vec![ContentItem::InputText { text: "question".to_string() }],
    };
    let outputs = drain(vec![
        StreamEvent::OutputItemAdded(ResponseItem::Other),
        StreamEvent::OutputItemDone(user),
        StreamEvent::Completed { token_usage: None },
    ]);
    assert_eq!(outputs, vec![]);
}

#[test]
fn summary_line_is_rewritten_in_place() {
    let mut state = RenderState::new();
    let first = state.step(StreamEvent::ReasoningSummaryDelta("Step ".to_string()));
    assert_eq!(
        first,
        vec![
            write(Sink::Secondary, "\r(reasoning summary) Step "),
            Output::Flush { sink: Sink::Secondary },
        ]
    );
    let second = state.step(StreamEvent::ReasoningSummaryDelta("1".to_string()));
    assert_eq!(
        second,
        vec![
            write(Sink::Secondary, "\r(reasoning summary) Step 1"),
            Output::Flush { sink: Sink::Secondary },
        ]
    );
    assert_eq!(state.reasoning_summary_buffer, "Step 1");
    let boundary = state.step(StreamEvent::ReasoningSummaryPartAdded);
    assert_eq!(boundary, vec![write(Sink::Secondary, "\n")]);
    assert_eq!(state.reasoning_summary_buffer, "");
    let next = state.step(StreamEvent::ReasoningSummaryDelta("Next".to_string()));
    assert_eq!(
        next,
        vec![
            write(Sink::Secondary, "\r(reasoning summary) Next"),
            Output::Flush { sink: Sink::Secondary },
        ]
    );
}

#[test]
fn summary_boundary_with_nothing_open_is_silent() {
    let mut state = RenderState::new();
    assert_eq!(state.step(StreamEvent::ReasoningSummaryPartAdded), vec![]);
    assert_eq!(state, RenderState::new());
}

#[test]
fn summary_sequence_on_secondary_sink() {
    let outputs = drain(vec![
        StreamEvent::ReasoningSummaryDelta("Step ".to_string()),
        StreamEvent::ReasoningSummaryDelta("1".to_string()),
        StreamEvent::ReasoningSummaryPartAdded,
        StreamEvent::ReasoningContentDelta("after".to_string()),
    ]);
    assert_eq!(
        sink_text(&outputs, Sink::Secondary),
        "\r(reasoning summary) Step \r(reasoning summary) Step 1\n(reasoning detail) after\n"
    );
    assert_eq!(sink_text(&outputs, Sink::Primary), "");
}

#[test]
fn reasoning_detail_is_a_line_of_its_own() {
    let mut state = RenderState::new();
    let out = state.step(StreamEvent::ReasoningContentDelta("thinking".to_string()));
    assert_eq!(out, vec![write(Sink::Secondary, "(reasoning detail) thinking\n")]);
    assert_eq!(state, RenderState::new());
}

#[test]
fn rate_limits_are_a_line_of_their_own() {
    let mut state = RenderState::new();
    let out = state.step(StreamEvent::RateLimits("RateLimitSnapshot { primary: None }".to_string()));
    assert_eq!(
        out,
        vec![write(Sink::Secondary, "Rate limits: RateLimitSnapshot { primary: None }\n")]
    );
    assert_eq!(state, RenderState::new());
}

#[test]
fn created_does_nothing() {
    let mut state = RenderState {
        printed_response: true,
        reasoning_summary_buffer: "open".to_string(),
    };
    let before = state.clone();
    assert_eq!(state.step(StreamEvent::Created), vec![]);
    assert_eq!(state, before);
}

#[test]
fn completion_closes_both_lines_and_reports_usage() {
    let mut state = RenderState {
        printed_response: true,
        reasoning_summary_buffer: "open".to_string(),
    };
    let usage = TokenUsage {
        input_tokens: 12,
        cached_input_tokens: 3,
        output_tokens: 45,
        reasoning_output_tokens: 6,
        total_tokens: 57,
    };
    let out = state.step(StreamEvent::Completed { token_usage: Some(usage) });
    assert_eq!(
        out,
        vec![
            write(Sink::Secondary, "\n"),
            write(Sink::Primary, "\n"),
            Output::Flush { sink: Sink::Primary },
            write(
                Sink::Secondary,
                "Token usage: total=57 input=12 cached_input=3 output=45 reasoning_output=6\n"
            ),
        ]
    );
    assert_eq!(state, RenderState::new());
}

#[test]
fn completion_with_nothing_open_reports_usage_only() {
    let mut state = RenderState::new();
    let usage = TokenUsage {
        input_tokens: 0,
        cached_input_tokens: 0,
        output_tokens: 0,
        reasoning_output_tokens: 0,
        total_tokens: 0,
    };
    let out = state.step(StreamEvent::Completed { token_usage: Some(usage) });
    assert_eq!(
        out,
        vec![write(
            Sink::Secondary,
            "Token usage: total=0 input=0 cached_input=0 output=0 reasoning_output=0\n"
        )]
    );
    let mut fresh = RenderState::new();
    assert_eq!(fresh.step(StreamEvent::Completed { token_usage: None }), vec![]);
}

#[test]
fn token_usage_line_labels_all_counters() {
    let usage = TokenUsage {
        input_tokens: 1000,
        cached_input_tokens: 10,
        output_tokens: 9223372036854775807,
        reasoning_output_tokens: -1,
        total_tokens: -9223372036854775808,
    };
    assert_eq!(
        token_usage_line(&usage),
        "Token usage: total=-9223372036854775808 input=1000 cached_input=10 \
         output=9223372036854775807 reasoning_output=-1"
    );
    assert_eq!(
        token_usage_line(&usage),
        format!(
            "Token usage: total={} input={} cached_input={} output={} reasoning_output={}",
            usage.total_tokens,
            usage.input_tokens,
            usage.cached_input_tokens,
            usage.output_tokens,
            usage.reasoning_output_tokens
        )
    );
}

#[test]
fn stream_without_completion_is_closed_at_its_end() {
    let outputs = drain(vec![
        StreamEvent::OutputTextDelta("partial".to_string()),
        StreamEvent::ReasoningSummaryDelta("thinking".to_string()),
    ]);
    assert_eq!(
        outputs,
        vec![
            write(Sink::Primary, "partial"),
            Output::Flush { sink: Sink::Primary },
            write(Sink::Secondary, "\r(reasoning summary) thinking"),
            Output::Flush { sink: Sink::Secondary },
            write(Sink::Primary, "\n"),
            Output::Flush { sink: Sink::Primary },
            write(Sink::Secondary, "\n"),
        ]
    );
}

#[test]
fn events_after_completion_are_rendered() {
    let outputs = drain(vec![
        StreamEvent::OutputTextDelta("one".to_string()),
        StreamEvent::Completed { token_usage: None },
        StreamEvent::OutputItemDone(assistant_message("two")),
    ]);
    assert_eq!(sink_text(&outputs, Sink::Primary), "one\ntwo\n");
}

#[test]
fn empty_delta_still_opens_the_answer() {
    let outputs = drain(vec![StreamEvent::OutputTextDelta(String::new())]);
    assert_eq!(sink_text(&outputs, Sink::Primary), "\n");
}

#[test]
fn exhausted_stream_is_silent() {
    let items: Vec<Result<StreamEvent, String>> = Vec::new();
    let Consumed { outputs, result } = consume_stream(items);
    assert_eq!(outputs, vec![]);
    assert_eq!(result, Ok(()));

    let again: Vec<Result<StreamEvent, String>> = Vec::new();
    let second = consume_stream(again);
    assert_eq!(second.outputs, vec![]);
    assert_eq!(second.result, Ok(()));
    assert_eq!(RenderState::new().finish(), vec![]);
}

#[test]
fn failure_ends_the_draining_at_once() {
    let items: Vec<Result<StreamEvent, String>> = vec![
        Ok(StreamEvent::OutputTextDelta("par".to_string())),
        Ok(StreamEvent::ReasoningSummaryDelta("s".to_string())),
        Err("connection reset".to_string()),
        Ok(StreamEvent::OutputTextDelta("tial".to_string())),
        Err("second".to_string()),
    ];
    let Consumed { outputs, result } = consume_stream(items);
    assert_eq!(result, Err("connection reset".to_string()));
    assert_eq!(
        outputs,
        vec![
            write(Sink::Primary, "par"),
            Output::Flush { sink: Sink::Primary },
            write(Sink::Secondary, "\r(reasoning summary) s"),
            Output::Flush { sink: Sink::Secondary },
        ]
    );
}

#[test]
fn failure_at_the_start_leaves_sinks_untouched() {
    let items: Vec<Result<StreamEvent, u32>> = vec![Err(7), Ok(StreamEvent::Created)];
    let Consumed { outputs, result } = consume_stream(items);
    assert_eq!(result, Err(7));
    assert_eq!(outputs, vec![]);
}

#[test]
fn stepping_and_draining_agree() {
    let events = vec![
        StreamEvent::Created,
        StreamEvent::ReasoningSummaryDelta("plan".to_string()),
        StreamEvent::ReasoningContentDelta("raw".to_string()),
        StreamEvent::ReasoningSummaryPartAdded,
        StreamEvent::OutputItemAdded(assistant_message("answer")),
        StreamEvent::OutputTextDelta(" more".to_string()),
        StreamEvent::RateLimits("limits".to_string()),
        StreamEvent::Completed { token_usage: None },
        StreamEvent::ReasoningSummaryDelta("late".to_string()),
    ];
    let mut state = RenderState::new();
    let mut stepped = Vec::new();
    for event in events.clone() {
        stepped.extend(state.step(event));
    }
    stepped.extend(state.finish());
    assert_eq!(stepped, drain(events));
    assert_eq!(sink_text(&stepped, Sink::Primary), "answer more\n");
    assert_eq!(
        sink_text(&stepped, Sink::Secondary),
        "\r(reasoning summary) plan(reasoning detail) raw\n\nRate limits: limits\n\
         \r(reasoning summary) late\n"
    );
}

#[test]
fn finish_closes_what_is_open() {
    let open_answer = RenderState { printed_response: true, reasoning_summary_buffer: String::new() };
    assert_eq!(
        open_answer.finish(),
        vec![write(Sink::Primary, "\n"), Output::Flush { sink: Sink::Primary }]
    );
    let open_summary = RenderState { printed_response: false, reasoning_summary_buffer: "x".to_string() };
    assert_eq!(open_summary.finish(), vec![write(Sink::Secondary, "\n")]);
}

#[test]
fn sink_text_keeps_the_sinks_apart() {
    let outputs = vec![
        write(Sink::Primary, "a"),
        write(Sink::Secondary, "1"),
        Output::Flush { sink: Sink::Secondary },
        write(Sink::Primary, "b"),
        write(Sink::Secondary, "2"),
    ];
    assert_eq!(sink_text(&outputs, Sink::Primary), "ab");
    assert_eq!(sink_text(&outputs, Sink::Secondary), "12");
    assert_eq!(sink_text(&Vec::new(), Sink::Primary), "");
}
