//! Messages, content, errors and the small helpers around them.

use std::marker::PhantomData;

use oh_my_agentloop::{
    create_abort_message, create_error_assistant_message, create_error_tool_result,
    default_convert_to_llm, failure_from_terminal_message, normalize_terminal_assistant_message,
    now_millis, stream_event_partial_for_update, terminal_error_message, timestamp_from, Agent,
    AgentContext, AgentError, AgentEvent, AgentMessage, AgentOptions, AgentOptionsBuilder,
    AssistantMessage, ContentBlock, Cost, CustomMessage, DoubleBits, ImageContent,
    InitialAgentState, Message, Model, ModelCost, QueueMode, RunOutcome, StopReason, StreamEvent,
    StreamOptions, StreamRequest, Subscription, TextContent, ThinkingBudgets, ThinkingContent,
    ThinkingLevel, ToolCallContent, ToolExecutionMode, ToolResultMessage, Transport, Usage,
    UserContent, UserContentBlock, UserContentBuildError, UserMessage,
};
use serde_json::Value;
use tokio_util::sync::CancellationToken;

fn json(text: &str) -> Value {
    serde_json::from_str(text).expect("json")
}

fn mk_model() -> Model {
    Model {
        id: "m".into(),
        name: "m".into(),
        api: "openai-responses".into(),
        provider: "mock".into(),
        base_url: "https://example.invalid".into(),
        reasoning: false,
        input: vec!["text".into()],
        cost: ModelCost::default(),
        context_window: 1,
        max_tokens: 1,
    }
}

fn mk_assistant(stop: StopReason, err: Option<&str>) -> AssistantMessage {
    AssistantMessage {
        content: vec![],
        model: "m".into(),
        provider: "mock".into(),
        api: "openai-responses".into(),
        response_id: None,
        stop_reason: stop,
        error_message: err.map(|s| s.to_string()),
        usage: Usage::default(),
        timestamp: 0,
    }
}

fn user_message(text: &str) -> AgentMessage {
    AgentMessage::User(UserMessage {
        content: UserContent::Plain(text.into()),
        timestamp: 0,
    })
}

fn text(text: &str) -> ContentBlock {
    ContentBlock::Text(TextContent { text: text.into(), text_signature: None })
}

#[test]
fn normalize_aborted_adds_default_error_message() {
    let msg = normalize_terminal_assistant_message(mk_assistant(StopReason::Aborted, None));
    assert_eq!(msg.error_message.as_deref(), Some("Aborted"));
}

#[test]
fn normalize_error_adds_default_error_message() {
    let msg = normalize_terminal_assistant_message(mk_assistant(StopReason::Error, None));
    assert_eq!(msg.error_message.as_deref(), Some("Unknown stream error"));
}

#[test]
fn normalize_preserves_existing_error_message() {
    let msg =
        normalize_terminal_assistant_message(mk_assistant(StopReason::Error, Some("custom")));
    assert_eq!(msg.error_message.as_deref(), Some("custom"));
}

#[test]
fn normalize_noop_for_stop_without_error() {
    let msg = normalize_terminal_assistant_message(mk_assistant(StopReason::Stop, None));
    assert!(msg.error_message.is_none());
}

#[test]
fn terminal_error_message_finds_trailing_error() {
    let model = mk_model();
    let messages = vec![AgentMessage::Assistant(create_error_assistant_message(
        &model, "boom",
    ))];
    assert_eq!(
        terminal_error_message(&messages, StopReason::Error).as_deref(),
        Some("boom"),
    );
}

#[test]
fn terminal_error_message_returns_none_for_non_terminal() {
    let messages = vec![AgentMessage::Assistant(mk_assistant(
        StopReason::Stop,
        None,
    ))];
    assert!(terminal_error_message(&messages, StopReason::Error).is_none());
}

#[test]
fn terminal_error_message_takes_the_last_that_fits() {
    let messages = vec![
        AgentMessage::Assistant(mk_assistant(StopReason::Error, Some("first"))),
        AgentMessage::Assistant(mk_assistant(StopReason::Error, Some("second"))),
        AgentMessage::Assistant(mk_assistant(StopReason::Error, None)),
        AgentMessage::Assistant(mk_assistant(StopReason::Aborted, Some("other"))),
        user_message("u"),
    ];
    assert_eq!(terminal_error_message(&messages, StopReason::Error).as_deref(), Some("second"));
    assert_eq!(terminal_error_message(&messages, StopReason::Aborted).as_deref(), Some("other"));
    assert_eq!(terminal_error_message(&vec![], StopReason::Error), None);
}

#[test]
fn abort_message_keeps_the_partial() {
    let mut partial = mk_assistant(StopReason::Stop, None);
    partial.content = vec![text("half")];
    partial.timestamp = 9;
    let closed = create_abort_message(&mk_model(), Some(&partial), 77);
    assert_eq!(closed.stop_reason, StopReason::Aborted);
    assert_eq!(closed.error_message.as_deref(), Some("Aborted"));
    assert_eq!(closed.content.len(), 1);
    assert_eq!(closed.timestamp, 9);
    let bare = create_abort_message(&mk_model(), None, 77);
    assert_eq!(bare.stop_reason, StopReason::Aborted);
    assert_eq!(bare.error_message.as_deref(), Some("Aborted"));
    assert_eq!(bare.provider, "mock");
    assert_eq!(bare.timestamp, 77);
}

#[test]
fn failure_carries_the_message_text() {
    let told = failure_from_terminal_message(&mk_assistant(StopReason::Error, Some("why")));
    assert_eq!(told.to_text(), "Stream error: why");
    let untold = failure_from_terminal_message(&mk_assistant(StopReason::Error, None));
    assert_eq!(untold.to_text(), "Stream error: Unknown stream error");
}

#[test]
fn user_content_try_from_llm_blocks_rejects_non_user_variants() {
    let thinking =
        UserContent::try_from_llm_blocks(vec![ContentBlock::Thinking(ThinkingContent {
            thinking: "x".into(),
            thinking_signature: None,
            redacted: None,
        })]);
    assert_eq!(thinking, Err(UserContentBuildError::ThinkingBlock));

    let tool = UserContent::try_from_llm_blocks(vec![ContentBlock::ToolCall(ToolCallContent {
        id: "1".into(),
        name: "n".into(),
        arguments: json("{}"),
    })]);
    assert_eq!(tool, Err(UserContentBuildError::ToolCallBlock));
}

#[test]
fn first_unfit_block_decides_the_error() {
    let thinking = || {
        ContentBlock::Thinking(ThinkingContent {
            thinking: "x".into(),
            thinking_signature: None,
            redacted: None,
        })
    };
    let call = || {
        ContentBlock::ToolCall(ToolCallContent {
            id: "1".into(),
            name: "n".into(),
            arguments: json("{}"),
        })
    };
    assert_eq!(
        UserContent::try_from_llm_blocks(vec![text("a"), call(), thinking()]),
        Err(UserContentBuildError::ToolCallBlock)
    );
    assert_eq!(
        UserContent::try_from_llm_blocks(vec![thinking(), call()]),
        Err(UserContentBuildError::ThinkingBlock)
    );
}

#[test]
fn user_content_keeps_every_block() {
    assert_eq!(UserContent::try_from_llm_blocks(vec![]), Ok(UserContent::Blocks(vec![])));
    let signed = ContentBlock::Text(TextContent {
        text: "s".into(),
        text_signature: Some("sig".into()),
    });
    assert_eq!(
        UserContent::try_from_llm_blocks(vec![signed]),
        Ok(UserContent::Blocks(vec![UserContentBlock::Text(TextContent {
            text: "s".into(),
            text_signature: Some("sig".into()),
        })]))
    );
    let image = ContentBlock::Image(ImageContent { data: "d".into(), mime_type: "image/png".into() });
    assert_eq!(
        UserContent::try_from_llm_blocks(vec![image]),
        Ok(UserContent::Blocks(vec![UserContentBlock::Image(ImageContent {
            data: "d".into(),
            mime_type: "image/png".into(),
        })]))
    );
}

#[test]
fn stop_reason_serializes_to_pi_ai_strings() {
    assert_eq!(StopReason::Stop.as_str(), "stop");
    assert_eq!(StopReason::Length.as_str(), "length");
    assert_eq!(StopReason::ToolUse.as_str(), "toolUse");
    assert_eq!(StopReason::Error.as_str(), "error");
    assert_eq!(StopReason::Aborted.as_str(), "aborted");
}

#[test]
fn stop_reason_deserializes_from_pi_ai_strings() {
    let v: Vec<StopReason> = vec![
        StopReason::from_wire("stop").unwrap(),
        StopReason::from_wire("length").unwrap(),
        StopReason::from_wire("toolUse").unwrap(),
        StopReason::from_wire("error").unwrap(),
        StopReason::from_wire("aborted").unwrap(),
    ];
    assert_eq!(
        v,
        vec![
            StopReason::Stop,
            StopReason::Length,
            StopReason::ToolUse,
            StopReason::Error,
            StopReason::Aborted,
        ]
    );
    assert_eq!(StopReason::from_wire("tooluse"), None);
    assert_eq!(StopReason::from_wire(""), None);
}

#[test]
fn crate_root_user_content_and_convert_to_llm() {
    let blocks = vec![
        ContentBlock::Text(TextContent {
            text: "hello".into(),
            text_signature: None,
        }),
        ContentBlock::Image(ImageContent {
            data: "d".into(),
            mime_type: "image/png".into(),
        }),
    ];
    let content = UserContent::try_from_llm_blocks(blocks).expect("text and image only");
    assert!(matches!(content, UserContent::Blocks(ref v) if v.len() == 2));

    let single = UserContent::try_from_llm_blocks(vec![ContentBlock::Text(TextContent {
        text: "only".into(),
        text_signature: None,
    })])
    .expect("single text");
    assert_eq!(single, UserContent::Plain("only".into()));

    let llm = default_convert_to_llm(vec![AgentMessage::User(UserMessage {
        content,
        timestamp: 0,
    })]);
    assert_eq!(llm.len(), 1);
    match &llm[0] {
        Message::User(u) => assert!(matches!(&u.content, UserContent::Blocks(bs) if bs.len() == 2)),
        _ => panic!("expected User message"),
    }
}

#[test]
fn crate_root_public_api_shape_is_stable() {
    #[allow(dead_code)]
    struct PublicTypes {
        agent: PhantomData<Agent>,
        options: PhantomData<AgentOptions>,
        builder: PhantomData<AgentOptionsBuilder>,
        initial: PhantomData<InitialAgentState>,
        subscription: PhantomData<Subscription>,
        queue_mode: PhantomData<QueueMode>,
        transport: PhantomData<Transport>,
        tool_exec: PhantomData<ToolExecutionMode>,
        stop_reason: PhantomData<StopReason>,
        thinking: PhantomData<ThinkingLevel>,
        outcome: PhantomData<RunOutcome>,
        error: PhantomData<AgentError>,
        event: PhantomData<AgentEvent>,
    }
}

#[test]
fn run_contract_types_are_public_and_instantiable() {
    let request = StreamRequest {
        options: StreamOptions {
            api_key: None,
            reasoning: None,
            session_id: None,
            transport: Transport::Sse,
            temperature: None,
            max_tokens: None,
            thinking_budgets: None,
            max_retry_delay_ms: None,
            on_payload: None,
        },
        cancel: CancellationToken::new(),
    };

    let completed = RunOutcome::Completed { new_messages: vec![] };
    let failed = RunOutcome::Failed {
        new_messages: vec![user_message("boom")],
        error: AgentError::Aborted,
    };
    let aborted = RunOutcome::Aborted {
        new_messages: vec![AgentMessage::Assistant(mk_assistant(StopReason::Stop, None))],
    };

    assert_eq!(request.options.transport, Transport::Sse);
    assert!(!request.cancel.is_cancelled());
    assert!(matches!(completed, RunOutcome::Completed { .. }));
    assert!(matches!(failed, RunOutcome::Failed { .. }));
    assert!(matches!(aborted, RunOutcome::Aborted { .. }));

    let ctx = AgentContext {
        system_prompt: "sys".into(),
        messages: vec![user_message("hello")],
        tools: vec![],
    };
    assert_eq!(ctx.messages.len(), 1);
}

#[test]
fn custom_messages_are_dropped_for_the_model() {
    let custom = AgentMessage::Custom(CustomMessage {
        role: "note".into(),
        data: json(r#"{"k":1}"#),
        timestamp: 1,
    });
    assert_eq!(custom.role(), "note");
    let result = AgentMessage::ToolResult(ToolResultMessage {
        tool_call_id: "c".into(),
        tool_name: "t".into(),
        content: vec![],
        details: Some(json("[1]")),
        is_error: false,
        timestamp: 3,
    });
    let converted = default_convert_to_llm(vec![
        user_message("a"),
        custom,
        AgentMessage::Assistant(mk_assistant(StopReason::Stop, None)),
        result,
    ]);
    let roles: Vec<&str> = converted.iter().map(|m| m.role()).collect();
    assert_eq!(roles, vec!["user", "assistant", "toolResult"]);
    match &converted[2] {
        Message::ToolResult(r) => assert_eq!(r.details, Some(json("[1]"))),
        _ => panic!("tool result"),
    }
}

#[test]
fn standard_messages_convert_both_ways() {
    let message = Message::Assistant(mk_assistant(StopReason::Length, None));
    let entry = AgentMessage::from(message);
    assert_eq!(entry.role(), "assistant");
    assert!(entry.as_assistant().is_some());
    assert!(entry.as_tool_result().is_none());
    match entry.into_message() {
        Some(Message::Assistant(m)) => assert_eq!(m.stop_reason, StopReason::Length),
        _ => panic!("assistant"),
    }
}

#[test]
fn copies_are_deep() {
    let mut message = mk_assistant(StopReason::ToolUse, None);
    message.content = vec![
        text("a"),
        ContentBlock::ToolCall(ToolCallContent {
            id: "1".into(),
            name: "n".into(),
            arguments: json(r#"{"x":[1,2]}"#),
        }),
    ];
    let copy = message.clone();
    message.content.clear();
    assert_eq!(copy.content.len(), 2);
    let calls = copy.tool_calls();
    assert_eq!(calls.len(), 1);
    assert_eq!(calls[0].arguments, json(r#"{"x":[1,2]}"#));
}

#[test]
fn error_texts() {
    assert_eq!(AgentError::NoMessages.to_text(), "Cannot continue: no messages in context");
    assert_eq!(
        AgentError::ContinueFromAssistant.to_text(),
        "Cannot continue from message role: assistant"
    );
    assert_eq!(AgentError::Aborted.to_text(), "Run aborted");
    assert_eq!(AgentError::Stream("x".into()).to_text(), "Stream error: x");
    assert_eq!(AgentError::JoinError("x".into()).to_text(), "Task join error: x");
    assert_eq!(AgentError::Other("x".into()).to_text(), "x");
    assert_eq!(
        AgentError::from(UserContentBuildError::ThinkingBlock).to_text(),
        "user message content cannot include a thinking block"
    );
    assert_eq!(
        AgentError::from(UserContentBuildError::ToolCallBlock).to_text(),
        "user message content cannot include a tool call block"
    );
}

#[test]
fn error_tool_result_is_one_text_block() {
    let result = create_error_tool_result("bad");
    assert_eq!(result.content.len(), 1);
    assert!(matches!(&result.content[0], ContentBlock::Text(t) if t.text == "bad"));
    assert_eq!(result.details, None);
}

#[test]
fn partials_ride_on_incremental_events_only() {
    let partial = || mk_assistant(StopReason::Stop, None);
    assert!(stream_event_partial_for_update(&StreamEvent::Start { partial: partial() }).is_none());
    assert!(stream_event_partial_for_update(&StreamEvent::Done { message: partial() }).is_none());
    assert!(stream_event_partial_for_update(&StreamEvent::Error { message: partial() }).is_none());
    assert!(stream_event_partial_for_update(&StreamEvent::ToolCallEnd {
        content_index: 0,
        tool_call: ToolCallContent { id: "1".into(), name: "n".into(), arguments: json("null") },
        partial: partial(),
    })
    .is_some());
    assert!(stream_event_partial_for_update(&StreamEvent::ThinkingDelta {
        content_index: 1,
        delta: "d".into(),
        partial: partial(),
    })
    .is_some());
}

#[test]
fn defaults() {
    assert_eq!(Transport::default(), Transport::Sse);
    assert_eq!(ThinkingLevel::default(), ThinkingLevel::Off);
    assert_eq!(ToolExecutionMode::default(), ToolExecutionMode::Parallel);
    assert_eq!(QueueMode::default(), QueueMode::OneAtATime);
    assert_eq!(ThinkingBudgets::default().high, None);
    assert_eq!(DoubleBits::default(), DoubleBits { bits: 0.0f64.to_bits() });
    assert_eq!(Cost::default().total, DoubleBits { bits: 0 });
    assert_eq!(Usage::default().total_tokens, 0);
    let model = Model::default();
    assert_eq!(model.name, "unknown");
    assert_eq!(model.api, "unknown");
    assert!(!model.reasoning);
    assert!(model.input.is_empty());
    assert_eq!(model.context_window, 0);
}

#[test]
fn timestamps_count_milliseconds() {
    assert_eq!(timestamp_from(None), 0);
    assert_eq!(timestamp_from(Some(1_700_000_000_123)), 1_700_000_000_123);
    assert_eq!(timestamp_from(Some(1u128 << 64)), 0);
    assert_eq!(timestamp_from(Some((1u128 << 63) + 5)), i64::MIN + 5);
    let before = 1_600_000_000_000;
    assert!(now_millis() > before);
}
