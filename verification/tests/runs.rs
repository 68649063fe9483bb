//! Runs of the low-level loop, driven step by step.

use std::cell::RefCell;
use std::collections::HashMap;
use std::rc::Rc;

use oh_my_agentloop::{
    check_continuable, default_convert_to_llm, observe, run_agent_loop, run_agent_loop_continue,
    tool_update_event, AfterToolCallContext, AfterToolCallResult, AgentContext, AgentError,
    AgentEvent, AgentLoopConfig, AgentMessage, AgentTool, AgentToolResult, AssistantMessage,
    BeforeToolCallContext, BeforeToolCallResult, ContentBlock, CustomMessage, DoubleBits,
    Execution, HookId, Join, LlmContext, Message, MessageConverter, MessageSource, Model,
    ModelCost, Opening, Progress, Reply, Request, RunOutcome, StopReason, StreamEvent, StreamPoll,
    StreamRequest, TextContent, ThinkingBudgets, ToolCallContent, ToolExecutionMode,
    ToolResultMessage, Transport, Usage, UserContent, UserMessage,
};
use serde_json::Value;
use tokio_util::sync::CancellationToken;

fn json(text: &str) -> Value {
    serde_json::from_str(text).expect("json")
}

fn test_model() -> Model {
    Model {
        id: "mock".into(),
        name: "mock".into(),
        api: "openai-responses".into(),
        provider: "openai".into(),
        base_url: "https://example.invalid".into(),
        reasoning: false,
        input: vec!["text".into()],
        cost: ModelCost::default(),
        context_window: 8192,
        max_tokens: 2048,
    }
}

fn user_message(text: &str) -> AgentMessage {
    AgentMessage::User(UserMessage {
        content: UserContent::Plain(text.into()),
        timestamp: 0,
    })
}

fn text_block(text: &str) -> ContentBlock {
    ContentBlock::Text(TextContent {
        text: text.into(),
        text_signature: None,
    })
}

fn assistant_text(text: &str, model: &Model) -> AssistantMessage {
    AssistantMessage {
        content: vec![text_block(text)],
        model: model.id.clone(),
        provider: model.provider.clone(),
        api: model.api.clone(),
        response_id: None,
        stop_reason: StopReason::Stop,
        error_message: None,
        usage: Usage::default(),
        timestamp: 0,
    }
}

fn assistant_with_tool_calls(model: &Model, calls: Vec<ToolCallContent>) -> AssistantMessage {
    let mut message = assistant_text("", model);
    message.content = calls.into_iter().map(ContentBlock::ToolCall).collect();
    message.stop_reason = StopReason::ToolUse;
    message
}

fn call(id: &str, name: &str, arguments: &str) -> ToolCallContent {
    ToolCallContent {
        id: id.into(),
        name: name.into(),
        arguments: json(arguments),
    }
}

/// What a scripted stream does next.
enum Item {
    Event(StreamEvent),
    Fail(AgentError),
    /// The run is cancelled while it waits.
    Cancel,
    /// The run is cancelled just before the event comes.
    CancelThenEvent(StreamEvent),
}

type Execute = Box<dyn FnMut(&str, Value, &CancellationToken) -> Execution>;
type OpenFn = Box<dyn FnMut(&Model, &LlmContext, &StreamRequest) -> Result<Vec<Item>, AgentError>>;

struct Tool {
    prepare: fn(Value) -> Value,
    updates: Vec<AgentToolResult>,
    execute: Execute,
}

/// The surroundings of a run.
struct World {
    open: OpenFn,
    stream: Vec<Item>,
    tools: HashMap<u64, Tool>,
    joins: HashMap<usize, Join>,
    spawned: Vec<usize>,
    broken_slots: Vec<usize>,
    steering: Box<dyn FnMut() -> Vec<AgentMessage>>,
    follow_up: Box<dyn FnMut() -> Vec<AgentMessage>>,
    key: Option<String>,
    before: Box<dyn FnMut(&BeforeToolCallContext, &CancellationToken) -> (Option<BeforeToolCallResult>, Option<Value>)>,
    after: Box<dyn FnMut(&AfterToolCallContext) -> Option<AfterToolCallResult>>,
    listener: Box<dyn FnMut(&AgentEvent, &CancellationToken)>,
    log: Vec<String>,
    events: Vec<AgentEvent>,
}

fn world(open: OpenFn) -> World {
    World {
        open,
        stream: vec![],
        tools: HashMap::new(),
        joins: HashMap::new(),
        spawned: vec![],
        broken_slots: vec![],
        steering: Box::new(|| vec![]),
        follow_up: Box::new(|| vec![]),
        key: None,
        before: Box::new(|_, _| (None, None)),
        after: Box::new(|_| None),
        listener: Box::new(|_, _| ()),
        log: vec![],
        events: vec![],
    }
}

fn done(message: AssistantMessage) -> Vec<Item> {
    vec![Item::Event(StreamEvent::Done { message })]
}

fn stream_done_only(message: AssistantMessage) -> OpenFn {
    Box::new(move |_, _, _| Ok(done(message.clone())))
}

fn stream_two_rounds(first: AssistantMessage, second: AssistantMessage) -> OpenFn {
    let mut round = 0;
    Box::new(move |_, _, _| {
        round += 1;
        Ok(done(if round == 1 { first.clone() } else { second.clone() }))
    })
}

impl World {
    fn execute(&mut self, tool: HookId, tool_call: &ToolCallContent, args: Value, cancel: &CancellationToken) -> Execution {
        let tool = self.tools.get_mut(&tool.id).expect("tool");
        let updates = tool.updates.clone();
        for update in updates {
            self.events.push(tool_update_event(tool_call, update));
        }
        (tool.execute)(&tool_call.id, args, cancel)
    }

    fn answer(&mut self, request: Request, cancel: &CancellationToken) -> Reply {
        match request {
            Request::Checkpoint => Reply::Done,
            Request::PollSteering { .. } => Reply::Messages((self.steering)()),
            Request::PollFollowUp { .. } => Reply::Messages((self.follow_up)()),
            Request::TransformContext { messages, .. } => {
                self.log.push("transform".into());
                Reply::Messages(messages)
            }
            Request::ConvertToLlm { messages, .. } => {
                self.log.push("convert".into());
                Reply::LlmMessages(default_convert_to_llm(messages))
            }
            Request::ResolveApiKey { provider, .. } => {
                self.log.push(format!("key for {provider}"));
                Reply::ApiKey(self.key.clone())
            }
            Request::OpenStream { model, llm_context, request } => {
                match (self.open)(&model, &llm_context, &request) {
                    Ok(items) => {
                        self.stream = items;
                        Reply::Opened(Opening::Opened)
                    }
                    Err(error) => Reply::Opened(Opening::Failed(error)),
                }
            }
            Request::NextStreamEvent => {
                if self.stream.is_empty() {
                    return Reply::Streamed(StreamPoll::Ended);
                }
                Reply::Streamed(match self.stream.remove(0) {
                    Item::Event(event) => StreamPoll::Event(event),
                    Item::Fail(error) => StreamPoll::Failed(error),
                    Item::Cancel => {
                        cancel.cancel();
                        StreamPoll::Cancelled
                    }
                    Item::CancelThenEvent(event) => {
                        cancel.cancel();
                        StreamPoll::Event(event)
                    }
                })
            }
            Request::PrepareArguments { tool, arguments } => {
                Reply::Arguments((self.tools[&tool.id].prepare)(arguments))
            }
            Request::BeforeToolCall { before_context, cancel, .. } => {
                let (result, args) = (self.before)(&before_context, &cancel);
                Reply::Before { result, args: args.unwrap_or(before_context.args) }
            }
            Request::ExecuteTool { tool, tool_call, args, cancel } => {
                Reply::Executed(self.execute(tool, &tool_call, args, &cancel))
            }
            Request::SpawnTool { slot, tool, tool_call, args, cancel } => {
                let execution = self.execute(tool, &tool_call, args, &cancel);
                let join = if self.broken_slots.contains(&slot) {
                    Join::Broken("task panicked".into())
                } else {
                    Join::Finished(execution)
                };
                self.joins.insert(slot, join);
                self.spawned.push(slot);
                Reply::Done
            }
            Request::JoinTool { slot } => Reply::Joined(self.joins.remove(&slot).expect("a started slot")),
            Request::AfterToolCall { after_context, .. } => Reply::After((self.after)(&after_context)),
            Request::Finish { .. } => unreachable!(),
        }
    }
}

fn echo_schema() -> Value {
    json(r#"{"type":"object","properties":{"value":{"type":"string"}},"required":["value"]}"#)
}

fn tool(handle: u64, name: &str, parameters: Value) -> AgentTool {
    AgentTool {
        handle: HookId { id: handle },
        name: name.into(),
        label: name.into(),
        description: format!("{name} tool"),
        parameters,
    }
}

/// A tool that notes its arguments and echoes the value.
fn echo_tool(executed: Rc<RefCell<Vec<Value>>>) -> Tool {
    Tool {
        prepare: |args| args,
        updates: vec![],
        execute: Box::new(move |_, params, _| {
            executed.borrow_mut().push(params.clone());
            let value = match params.get("value") {
                Some(Value::String(s)) => s.clone(),
                Some(other) => other.to_string(),
                None => String::new(),
            };
            Execution::Returned(AgentToolResult {
                content: vec![text_block(&format!("echoed: {value}"))],
                details: Some(json(&format!("{{\"value\":\"{value}\"}}"))),
            })
        }),
    }
}

fn block_text(block: &ContentBlock) -> &str {
    match block {
        ContentBlock::Text(t) => &t.text,
        _ => panic!("expected text block"),
    }
}

fn started_ids(events: &[AgentEvent]) -> Vec<String> {
    events
        .iter()
        .filter_map(|e| match e {
            AgentEvent::ToolExecutionStart { tool_call_id, .. } => Some(tool_call_id.clone()),
            _ => None,
        })
        .collect()
}

fn ended_ids(events: &[AgentEvent]) -> Vec<String> {
    events
        .iter()
        .filter_map(|e| match e {
            AgentEvent::ToolExecutionEnd { tool_call_id, .. } => Some(tool_call_id.clone()),
            _ => None,
        })
        .collect()
}

fn event_types(events: &[AgentEvent]) -> Vec<&'static str> {
    events
        .iter()
        .map(|e| match e {
            AgentEvent::AgentStart => "agent_start",
            AgentEvent::RunCompleted { .. } => "run_completed",
            AgentEvent::RunFailed { .. } => "run_failed",
            AgentEvent::RunAborted { .. } => "run_aborted",
            AgentEvent::TurnStart => "turn_start",
            AgentEvent::TurnEnd { .. } => "turn_end",
            AgentEvent::MessageStart { .. } => "message_start",
            AgentEvent::MessageUpdate { .. } => "message_update",
            AgentEvent::MessageEnd { .. } => "message_end",
            AgentEvent::ToolExecutionStart { .. } => "tool_execution_start",
            AgentEvent::ToolExecutionUpdate { .. } => "tool_execution_update",
            AgentEvent::ToolExecutionEnd { .. } => "tool_execution_end",
            _ => "unknown",
        })
        .collect()
}

/// Drives a run to its end.
fn drive(progress: Progress, world: &mut World, cancel: &CancellationToken) -> RunOutcome {
    let mut progress = progress;
    loop {
        let Progress { run, events, request } = progress;
        for event in events {
            (world.listener)(&event, cancel);
            world.events.push(event);
        }
        if let Request::Finish { outcome } = request {
            assert!(run.is_finished());
            return outcome;
        }
        let reply = world.answer(request, cancel);
        assert!(run.can_take(&reply));
        progress = run.step(reply, observe(cancel));
    }
}

fn base_loop_config(model: Model) -> AgentLoopConfig {
    AgentLoopConfig {
        model,
        reasoning: None,
        convert_to_llm: MessageConverter::Standard,
        transform_context: None,
        get_api_key: None,
        get_steering_messages: None,
        get_follow_up_messages: None,
        tool_execution: ToolExecutionMode::default(),
        before_tool_call: None,
        after_tool_call: None,
        api_key: None,
        session_id: None,
        transport: Transport::Sse,
        temperature: None,
        max_tokens: None,
        thinking_budgets: None,
        max_retry_delay_ms: None,
        on_payload: None,
    }
}

fn context(tools: Vec<AgentTool>) -> AgentContext {
    AgentContext { system_prompt: "".into(), messages: vec![], tools }
}

fn hook(id: u64) -> HookId {
    HookId { id }
}

/// Runs a prompt to its end.
fn run(text: &str, context: AgentContext, config: AgentLoopConfig, world: &mut World) -> RunOutcome {
    let cancel = CancellationToken::new();
    drive(
        run_agent_loop(vec![user_message(text)], context, config, cancel.clone()),
        world,
        &cancel,
    )
}

#[test]
fn prompt_path_emits_expected_event_sequence_for_done_only_stream() {
    let model = test_model();
    let mut w = world(stream_done_only(assistant_text("Hi there!", &model)));
    let outcome = run("Hello", context(vec![]), base_loop_config(model), &mut w);
    assert_eq!(
        event_types(&w.events),
        vec![
            "agent_start", "turn_start", "message_start", "message_end", "message_start",
            "message_end", "turn_end", "run_completed",
        ]
    );
    let starts: Vec<&AgentMessage> = w
        .events
        .iter()
        .filter_map(|e| match e {
            AgentEvent::MessageStart { message } => Some(message),
            _ => None,
        })
        .collect();
    assert_eq!(starts.len(), 2, "user + assistant message_start");
    assert_eq!(starts[0].role(), "user");
    assert_eq!(starts[1].role(), "assistant");
    match outcome {
        RunOutcome::Completed { new_messages } => assert_eq!(new_messages.len(), 2),
        _ => panic!("expected completion"),
    }
}

#[test]
fn transform_context_runs_before_convert_to_llm() {
    let model = test_model();
    let mut w = world(stream_done_only(assistant_text("ok", &model)));
    let mut config = base_loop_config(model);
    config.transform_context = Some(hook(1));
    let _ = run("x", context(vec![]), config, &mut w);
    assert_eq!(w.log, vec!["transform", "convert"]);
}

#[test]
fn follow_up_messages_run_only_after_agent_would_stop() {
    let model = test_model();
    let mut w = world(stream_done_only(assistant_text("first", &model)));
    let calls = Rc::new(RefCell::new(0));
    let seen = calls.clone();
    w.follow_up = Box::new(move || {
        *seen.borrow_mut() += 1;
        if *seen.borrow() == 1 { vec![user_message("follow-up")] } else { vec![] }
    });
    let mut config = base_loop_config(model);
    config.get_follow_up_messages = Some(MessageSource::Hook(hook(1)));
    let _ = run("start", context(vec![]), config, &mut w);
    assert_eq!(*calls.borrow(), 2, "called once when stopping, again on final stop");
    let turn_starts = w.events.iter().filter(|e| matches!(e, AgentEvent::TurnStart)).count();
    assert_eq!(turn_starts, 2);
}

#[test]
fn stream_options_include_resolved_key_session_transport_temperature_tokens_budgets_retry_on_payload() {
    let model = test_model();
    let budgets = ThinkingBudgets {
        minimal: Some(1),
        low: Some(2),
        medium: Some(3),
        high: Some(4),
        xhigh: Some(5),
    };
    let reply = assistant_text("ok", &model);
    let seen = Rc::new(RefCell::new(0));
    let count = seen.clone();
    let mut w = world(Box::new(move |m, ctx, req| {
        *count.borrow_mut() += 1;
        assert_eq!(m.id, "mock");
        assert_eq!(ctx.system_prompt, "sys");
        assert_eq!(ctx.messages.len(), 1);
        let opts = &req.options;
        assert_eq!(opts.api_key.as_deref(), Some("key-from-fn"));
        assert_eq!(opts.session_id.as_deref(), Some("sess-1"));
        assert_eq!(opts.transport, Transport::Ws);
        assert_eq!(opts.temperature, Some(DoubleBits { bits: 0.7f64.to_bits() }));
        assert_eq!(opts.max_tokens, Some(99));
        assert_eq!(opts.thinking_budgets, Some(budgets));
        assert_eq!(opts.max_retry_delay_ms, Some(12345));
        assert_eq!(opts.on_payload, Some(HookId { id: 7 }));
        assert_eq!(opts.shown_api_key(), Some("<redacted>"));
        assert_eq!(opts.shown_on_payload(), Some("<fn>"));
        Ok(done(reply.clone()))
    }));
    w.key = Some("key-from-fn".into());
    let mut config = base_loop_config(model);
    config.get_api_key = Some(hook(1));
    config.api_key = Some("key-static".into());
    config.session_id = Some("sess-1".into());
    config.transport = Transport::Ws;
    config.temperature = Some(DoubleBits { bits: 0.7f64.to_bits() });
    config.max_tokens = Some(99);
    config.thinking_budgets = Some(budgets);
    config.max_retry_delay_ms = Some(12345);
    config.on_payload = Some(hook(7));
    let mut ctx = context(vec![]);
    ctx.system_prompt = "sys".into();
    let _ = run("hi", ctx, config, &mut w);
    assert_eq!(*seen.borrow(), 1);
    assert_eq!(w.log, vec!["convert", "key for openai"]);
}

#[test]
fn configured_key_stands_where_the_callback_names_none() {
    let model = test_model();
    let reply = assistant_text("ok", &model);
    let mut w = world(Box::new(move |_, _, req| {
        assert_eq!(req.options.api_key.as_deref(), Some("key-static"));
        assert_eq!(req.options.on_payload, None);
        assert_eq!(req.options.shown_on_payload(), None);
        Ok(done(reply.clone()))
    }));
    let mut config = base_loop_config(model);
    config.get_api_key = Some(hook(1));
    config.api_key = Some("key-static".into());
    let _ = run("hi", context(vec![]), config, &mut w);
    assert!(matches!(w.events.last(), Some(AgentEvent::RunCompleted { .. })));
}

#[test]
fn message_update_uses_provider_partial_from_stream_event() {
    let model = test_model();
    let start = assistant_text("", &model);
    let partial = assistant_text("__PROVIDER_PARTIAL__", &model);
    let last = assistant_text("final", &model);
    let mut w = world(Box::new(move |_, _, _| {
        Ok(vec![
            Item::Event(StreamEvent::Start { partial: start.clone() }),
            Item::Event(StreamEvent::TextDelta {
                content_index: 0,
                delta: String::new(),
                partial: partial.clone(),
            }),
            Item::Event(StreamEvent::Done { message: last.clone() }),
        ])
    }));
    let outcome = run("u", context(vec![]), base_loop_config(model), &mut w);
    let updates: Vec<(&AgentMessage, &StreamEvent)> = w
        .events
        .iter()
        .filter_map(|e| match e {
            AgentEvent::MessageUpdate { message, stream_event } => Some((message, stream_event)),
            _ => None,
        })
        .collect();
    assert_eq!(updates.len(), 1);
    let message = updates[0].0.as_assistant().expect("assistant");
    assert_eq!(block_text(&message.content[0]), "__PROVIDER_PARTIAL__");
    match updates[0].1 {
        StreamEvent::TextDelta { partial, .. } => {
            assert_eq!(block_text(&partial.content[0]), "__PROVIDER_PARTIAL__")
        }
        other => panic!("expected TextDelta, got {other:?}"),
    }
    match outcome {
        RunOutcome::Completed { new_messages } => {
            assert_eq!(new_messages.len(), 2);
            let last = new_messages[1].as_assistant().expect("assistant");
            assert_eq!(block_text(&last.content[0]), "final");
        }
        _ => panic!("expected completion"),
    }
    assert_eq!(
        event_types(&w.events)[4..],
        ["message_start", "message_update", "message_end", "turn_end", "run_completed"]
    );
}

#[test]
fn updates_before_the_start_of_a_message_are_skipped() {
    let model = test_model();
    let partial = assistant_text("early", &model);
    let last = assistant_text("final", &model);
    let mut w = world(Box::new(move |_, _, _| {
        Ok(vec![
            Item::Event(StreamEvent::TextStart { content_index: 0, partial: partial.clone() }),
            Item::Event(StreamEvent::Done { message: last.clone() }),
        ])
    }));
    let _ = run("u", context(vec![]), base_loop_config(model), &mut w);
    assert_eq!(
        event_types(&w.events)[4..],
        ["message_start", "message_end", "turn_end", "run_completed"]
    );
}

#[test]
fn agent_loop_continue_rejects_empty_context_before_spawn() {
    let refused = run_agent_loop_continue(
        context(vec![]),
        base_loop_config(test_model()),
        CancellationToken::new(),
    );
    assert!(matches!(refused, Err(AgentError::NoMessages)));
    assert!(matches!(check_continuable(&vec![]), Err(AgentError::NoMessages)));
}

#[test]
fn agent_loop_continue_rejects_assistant_tail() {
    let model = test_model();
    let mut ctx = context(vec![]);
    ctx.messages = vec![
        user_message("u"),
        AgentMessage::Assistant(assistant_text("a", &model)),
    ];
    let refused = run_agent_loop_continue(ctx, base_loop_config(model), CancellationToken::new());
    assert!(matches!(refused, Err(AgentError::ContinueFromAssistant)));
}

#[test]
fn custom_message_in_the_models_role_is_rejected_as_tail() {
    let custom = AgentMessage::Custom(CustomMessage {
        role: "assistant".into(),
        data: json("{}"),
        timestamp: 0,
    });
    assert!(matches!(
        check_continuable(&vec![custom]),
        Err(AgentError::ContinueFromAssistant)
    ));
    let note = AgentMessage::Custom(CustomMessage {
        role: "note".into(),
        data: json("{}"),
        timestamp: 0,
    });
    assert!(check_continuable(&vec![note]).is_ok());
}

#[test]
fn run_agent_loop_continue_emits_only_new_assistant_message_events() {
    let model = test_model();
    let mut ctx = context(vec![]);
    ctx.messages = vec![user_message("Hello")];
    let mut w = world(stream_done_only(assistant_text("Response", &model)));
    let cancel = CancellationToken::new();
    let started = match run_agent_loop_continue(ctx, base_loop_config(model), cancel.clone()) {
        Ok(progress) => progress,
        Err(_) => panic!("continue ok"),
    };
    let outcome = drive(started, &mut w, &cancel);
    let RunOutcome::Completed { new_messages } = outcome else {
        panic!("expected completed outcome");
    };
    assert_eq!(new_messages.len(), 1);
    assert_eq!(new_messages[0].role(), "assistant");
    let ends: Vec<&str> = w
        .events
        .iter()
        .filter_map(|e| match e {
            AgentEvent::MessageEnd { message } => Some(message.role()),
            _ => None,
        })
        .collect();
    assert_eq!(ends, vec!["assistant"]);
}

// ---- Errors and cancellation ----

#[test]
fn stream_request_cancel_is_same_channel_as_loop_cancellation_token() {
    let model = test_model();
    let reply = assistant_text("ok", &model);
    let slot = Rc::new(RefCell::new(None));
    let give = slot.clone();
    let mut w = world(Box::new(move |_, _, req| {
        *give.borrow_mut() = Some(req.cancel.clone());
        Ok(done(reply.clone()))
    }));
    let cancel = CancellationToken::new();
    let _ = drive(
        run_agent_loop(vec![user_message("hi")], context(vec![]), base_loop_config(model), cancel.clone()),
        &mut w,
        &cancel,
    );
    let provider: CancellationToken = slot.borrow_mut().take().expect("token");
    assert!(!provider.is_cancelled());
    cancel.cancel();
    assert!(provider.is_cancelled());
}

#[test]
fn low_level_stream_errors_emit_run_failed_before_receiver_closes() {
    let model = test_model();
    let mut w = world(Box::new(|_, _, _| Err(AgentError::Stream("boom".into()))));
    let outcome = run("hi", context(vec![]), base_loop_config(model), &mut w);
    assert!(matches!(
        w.events.last(),
        Some(AgentEvent::RunFailed { error_message, .. }) if error_message == "Stream error: boom"
    ));
    match outcome {
        RunOutcome::Failed { new_messages, error: AgentError::Stream(text) } => {
            assert_eq!(text, "boom");
            let failure = new_messages[1].as_assistant().expect("failure message");
            assert_eq!(failure.stop_reason, StopReason::Error);
            assert_eq!(failure.error_message.as_deref(), Some("Stream error: boom"));
            assert_eq!(failure.model, "mock");
            assert_eq!(failure.content.len(), 1);
            assert_eq!(block_text(&failure.content[0]), "");
        }
        _ => panic!("expected failure"),
    }
    assert_eq!(
        event_types(&w.events)[4..],
        ["message_start", "message_end", "turn_end", "run_failed"]
    );
}

#[test]
fn low_level_cancelled_runs_emit_run_aborted_before_receiver_closes() {
    let model = test_model();
    let start = assistant_text("", &model);
    let tick = assistant_text("tick", &model);
    let mut w = world(Box::new(move |_, _, _| {
        Ok(vec![
            Item::Event(StreamEvent::Start { partial: start.clone() }),
            Item::Event(StreamEvent::TextDelta {
                content_index: 0,
                delta: "tick ".into(),
                partial: tick.clone(),
            }),
            Item::Cancel,
        ])
    }));
    let outcome = run("cancel me", context(vec![]), base_loop_config(model), &mut w);
    assert!(matches!(w.events.last(), Some(AgentEvent::RunAborted { .. })));
    match outcome {
        RunOutcome::Aborted { new_messages } => {
            let last = new_messages[1].as_assistant().expect("assistant");
            assert_eq!(last.stop_reason, StopReason::Aborted);
            assert_eq!(last.error_message.as_deref(), Some("Aborted"));
            assert_eq!(block_text(&last.content[0]), "tick");
        }
        _ => panic!("expected abort"),
    }
}

#[test]
fn cancellation_seen_with_an_update_keeps_its_partial() {
    let model = test_model();
    let start = assistant_text("", &model);
    let late = assistant_text("late", &model);
    let mut w = world(Box::new(move |_, _, _| {
        Ok(vec![
            Item::Event(StreamEvent::Start { partial: start.clone() }),
            Item::CancelThenEvent(StreamEvent::TextDelta {
                content_index: 0,
                delta: "late".into(),
                partial: late.clone(),
            }),
        ])
    }));
    match run("x", context(vec![]), base_loop_config(model), &mut w) {
        RunOutcome::Aborted { new_messages } => {
            let last = new_messages[1].as_assistant().expect("assistant");
            assert_eq!(block_text(&last.content[0]), "late");
        }
        _ => panic!("expected abort"),
    }
}

#[test]
fn provider_stream_error_events_emit_run_failed() {
    let model = test_model();
    let mut message = assistant_text("", &model);
    message.stop_reason = StopReason::Error;
    message.error_message = Some("provider boom".into());
    let mut w = world(Box::new(move |_, _, _| {
        Ok(vec![Item::Event(StreamEvent::Error { message: message.clone() })])
    }));
    let _ = run("hi", context(vec![]), base_loop_config(model), &mut w);
    assert!(matches!(
        w.events.last(),
        Some(AgentEvent::RunFailed { error_message, .. }) if error_message == "provider boom"
    ));
}

#[test]
fn error_event_with_another_stop_reason_counts_as_an_error() {
    let model = test_model();
    let message = assistant_text("half", &model);
    let mut w = world(Box::new(move |_, _, _| {
        Ok(vec![Item::Event(StreamEvent::Error { message: message.clone() })])
    }));
    match run("hi", context(vec![]), base_loop_config(model), &mut w) {
        RunOutcome::Failed { error: AgentError::Stream(text), .. } => {
            assert_eq!(text, "Unknown stream error")
        }
        _ => panic!("expected failure"),
    }
}

#[test]
fn broken_stream_leaves_its_partial_and_adds_a_failure() {
    let model = test_model();
    let start = assistant_text("", &model);
    let mut w = world(Box::new(move |_, _, _| {
        Ok(vec![
            Item::Event(StreamEvent::Start { partial: start.clone() }),
            Item::Fail(AgentError::Other("line down".into())),
        ])
    }));
    match run("hi", context(vec![]), base_loop_config(model), &mut w) {
        RunOutcome::Failed { new_messages, error } => {
            assert_eq!(error.to_text(), "line down");
            assert_eq!(new_messages.len(), 2);
        }
        _ => panic!("expected failure"),
    }
    assert_eq!(
        event_types(&w.events)[4..],
        ["message_start", "message_start", "message_end", "turn_end", "run_failed"]
    );
}

#[test]
fn cancel_before_first_partial_emits_aborted_terminal_and_message() {
    let model = test_model();
    let mut w = world(Box::new(|_, _, _| Ok(vec![Item::Cancel])));
    let _ = run("cancel before start", context(vec![]), base_loop_config(model), &mut w);
    let message = w
        .events
        .iter()
        .find_map(|e| match e {
            AgentEvent::TurnEnd { message, .. } => message.as_assistant(),
            _ => None,
        })
        .expect("turn end");
    assert_eq!(message.stop_reason, StopReason::Aborted);
    assert_eq!(message.error_message.as_deref(), Some("Aborted"));
    assert!(matches!(w.events.last(), Some(AgentEvent::RunAborted { .. })));
}

#[test]
fn streams_without_terminal_events_emit_run_failed() {
    let model = test_model();
    let mut w = world(Box::new(|_, _, _| Ok(vec![])));
    let _ = run("hi", context(vec![]), base_loop_config(model), &mut w);
    assert!(matches!(
        w.events.last(),
        Some(AgentEvent::RunFailed { error_message, .. })
            if error_message == "Stream ended without terminal event"
    ));
}

#[test]
fn partial_stream_without_terminal_events_emits_run_failed() {
    let model = test_model();
    let start = assistant_text("", &model);
    let half = assistant_text("half", &model);
    let mut w = world(Box::new(move |_, _, _| {
        Ok(vec![
            Item::Event(StreamEvent::Start { partial: start.clone() }),
            Item::Event(StreamEvent::TextDelta {
                content_index: 0,
                delta: "half".into(),
                partial: half.clone(),
            }),
        ])
    }));
    let _ = run("hi", context(vec![]), base_loop_config(model), &mut w);
    let message = w
        .events
        .iter()
        .find_map(|e| match e {
            AgentEvent::TurnEnd { message, .. } => message.as_assistant(),
            _ => None,
        })
        .expect("turn end");
    assert_eq!(message.stop_reason, StopReason::Error);
    assert_eq!(
        message.error_message.as_deref(),
        Some("Stream ended without terminal event")
    );
    assert!(matches!(
        w.events.last(),
        Some(AgentEvent::RunFailed { error_message, .. })
            if error_message == "Stream ended without terminal event"
    ));
}

#[test]
fn answers_of_the_wrong_kind_are_recognized() {
    let progress = run_agent_loop(
        vec![user_message("x")],
        context(vec![]),
        base_loop_config(test_model()),
        CancellationToken::new(),
    );
    assert!(progress.run.can_take(&Reply::Done));
    assert!(!progress.run.can_take(&Reply::Messages(vec![])));
    assert!(!progress.run.can_take(&Reply::Streamed(StreamPoll::Ended)));
    assert!(!progress.run.is_finished());
}

// ---- Tools ----

fn echo_setup(executed: &Rc<RefCell<Vec<Value>>>, calls: Vec<ToolCallContent>) -> (World, AgentContext) {
    let model = test_model();
    let mut w = world(stream_two_rounds(
        assistant_with_tool_calls(&model, calls),
        assistant_text("done", &model),
    ));
    w.tools.insert(1, echo_tool(executed.clone()));
    (w, context(vec![tool(1, "echo", echo_schema())]))
}

fn tool_results(events: &[AgentEvent]) -> Vec<&ToolResultMessage> {
    events
        .iter()
        .filter_map(|e| match e {
            AgentEvent::MessageEnd { message } => message.as_tool_result(),
            _ => None,
        })
        .collect()
}

#[test]
fn missing_tool_produces_error_tool_result() {
    let executed = Rc::new(RefCell::new(vec![]));
    let (mut w, _) = echo_setup(&executed, vec![call("tool-1", "does_not_exist", "{}")]);
    let _ = run("hi", context(vec![]), base_loop_config(test_model()), &mut w);
    let ends: Vec<(bool, String)> = w
        .events
        .iter()
        .filter_map(|e| match e {
            AgentEvent::ToolExecutionEnd { is_error, result, .. } => {
                Some((*is_error, block_text(&result.content[0]).to_string()))
            }
            _ => None,
        })
        .collect();
    assert_eq!(ends, vec![(true, "Tool does_not_exist not found".to_string())]);
}

#[test]
fn missing_tool_stays_in_band_and_run_still_completes() {
    let executed = Rc::new(RefCell::new(vec![]));
    let (mut w, _) = echo_setup(&executed, vec![call("tool-1", "does_not_exist", "{}")]);
    let _ = run("hi", context(vec![]), base_loop_config(test_model()), &mut w);
    let results = tool_results(&w.events);
    assert_eq!(results.len(), 1);
    assert!(results[0].is_error);
    assert_eq!(results[0].tool_call_id, "tool-1");
    assert_eq!(results[0].tool_name, "does_not_exist");
    assert_eq!(results[0].details, None);
    assert_eq!(block_text(&results[0].content[0]), "Tool does_not_exist not found");
    assert!(matches!(w.events.last(), Some(AgentEvent::RunCompleted { .. })));
}

#[test]
fn invalid_arguments_yield_validation_error_tool_result() {
    let executed = Rc::new(RefCell::new(vec![]));
    let (mut w, ctx) = echo_setup(&executed, vec![call("tool-1", "echo", r#"{"value":42}"#)]);
    let _ = run("hi", ctx, base_loop_config(test_model()), &mut w);
    assert!(executed.borrow().is_empty(), "tool must not run when validation fails");
    let results = tool_results(&w.events);
    let text = block_text(&results[0].content[0]);
    assert!(results[0].is_error);
    assert!(text.contains("Validation failed") && text.contains("echo"), "{text}");
    assert!(text.contains("\n  - value: "), "{text}");
    assert!(text.ends_with("\n\nReceived arguments:\n{\n  \"value\": 42\n}"), "{text}");
}

#[test]
fn prepare_arguments_runs_before_validation() {
    let model = test_model();
    let executed = Rc::new(RefCell::new(vec![]));
    let mut w = world(stream_two_rounds(
        assistant_with_tool_calls(
            &model,
            vec![call("tool-1", "edit", r#"{"oldText":"before","newText":"after"}"#)],
        ),
        assistant_text("done", &model),
    ));
    let mut edit = echo_tool(executed.clone());
    edit.prepare = |args| {
        let old = args.get("oldText").and_then(|x| x.as_str());
        let new = args.get("newText").and_then(|x| x.as_str());
        match (old, new) {
            (Some(o), Some(n)) => json(&format!(
                "{{\"edits\":[{{\"oldText\":\"{o}\",\"newText\":\"{n}\"}}]}}"
            )),
            _ => args,
        }
    };
    w.tools.insert(1, edit);
    let schema = json(
        r#"{"type":"object","properties":{"edits":{"type":"array","items":{"type":"object",
        "properties":{"oldText":{"type":"string"},"newText":{"type":"string"}},
        "required":["oldText","newText"]}}},"required":["edits"]}"#,
    );
    let _ = run("edit something", context(vec![tool(1, "edit", schema)]), base_loop_config(model), &mut w);
    assert_eq!(
        *executed.borrow(),
        vec![json(r#"{"edits":[{"oldText":"before","newText":"after"}]}"#)]
    );
}

#[test]
fn before_tool_call_can_block() {
    let executed = Rc::new(RefCell::new(vec![]));
    let (mut w, ctx) = echo_setup(&executed, vec![call("tool-1", "echo", r#"{"value":"hello"}"#)]);
    let asked = Rc::new(RefCell::new(0));
    let count = asked.clone();
    w.before = Box::new(move |ctx, _| {
        *count.borrow_mut() += 1;
        assert_eq!(ctx.tool_call.id, "tool-1");
        assert_eq!(ctx.args, json(r#"{"value":"hello"}"#));
        assert_eq!(ctx.context.messages.len(), 2);
        assert_eq!(ctx.context.tools.len(), 1);
        (
            Some(BeforeToolCallResult { block: true, reason: Some("blocked-by-test".into()) }),
            None,
        )
    });
    let mut config = base_loop_config(test_model());
    config.before_tool_call = Some(hook(9));
    let _ = run("x", ctx, config, &mut w);
    assert_eq!(*asked.borrow(), 1);
    assert!(executed.borrow().is_empty(), "execute must not run");
    let results = tool_results(&w.events);
    assert!(results[0].is_error);
    assert_eq!(block_text(&results[0].content[0]), "blocked-by-test");
}

#[test]
fn block_without_reason_has_a_text_of_its_own() {
    let executed = Rc::new(RefCell::new(vec![]));
    let (mut w, ctx) = echo_setup(&executed, vec![call("tool-1", "echo", r#"{"value":"a"}"#)]);
    w.before = Box::new(|_, _| (Some(BeforeToolCallResult { block: true, reason: None }), None));
    let mut config = base_loop_config(test_model());
    config.before_tool_call = Some(hook(9));
    let _ = run("x", ctx, config, &mut w);
    let results = tool_results(&w.events);
    assert_eq!(block_text(&results[0].content[0]), "Tool execution was blocked");
}

#[test]
fn reason_without_block_lets_the_call_run() {
    let executed = Rc::new(RefCell::new(vec![]));
    let (mut w, ctx) = echo_setup(&executed, vec![call("tool-1", "echo", r#"{"value":"a"}"#)]);
    w.before = Box::new(|_, _| {
        (Some(BeforeToolCallResult { block: false, reason: Some("no".into()) }), None)
    });
    let mut config = base_loop_config(test_model());
    config.before_tool_call = Some(hook(9));
    let _ = run("x", ctx, config, &mut w);
    assert_eq!(executed.borrow().len(), 1);
    assert!(!tool_results(&w.events)[0].is_error);
}

#[test]
fn before_tool_call_mutated_args_execute_without_revalidation() {
    let executed = Rc::new(RefCell::new(vec![]));
    let (mut w, ctx) = echo_setup(&executed, vec![call("tool-1", "echo", r#"{"value":"hello"}"#)]);
    w.before = Box::new(|_, _| (None, Some(json(r#"{"value":123}"#))));
    let mut config = base_loop_config(test_model());
    config.before_tool_call = Some(hook(9));
    let _ = run("x", ctx, config, &mut w);
    assert_eq!(*executed.borrow(), vec![json(r#"{"value":123}"#)]);
}

#[test]
fn after_tool_call_can_override_content_details_and_error_flag() {
    let executed = Rc::new(RefCell::new(vec![]));
    let (mut w, ctx) = echo_setup(&executed, vec![call("tool-1", "echo", r#"{"value":"x"}"#)]);
    w.after = Box::new(|ctx| {
        assert!(!ctx.is_error);
        assert_eq!(ctx.args, json(r#"{"value":"x"}"#));
        assert_eq!(block_text(&ctx.result.content[0]), "echoed: x");
        Some(AfterToolCallResult {
            content: Some(vec![text_block("replaced")]),
            details: Some(json(r#"{"patched":true}"#)),
            is_error: Some(true),
        })
    });
    let mut config = base_loop_config(test_model());
    config.after_tool_call = Some(hook(9));
    let _ = run("x", ctx, config, &mut w);
    let results = tool_results(&w.events);
    assert!(results[0].is_error);
    assert_eq!(results[0].details, Some(json(r#"{"patched":true}"#)));
    assert_eq!(block_text(&results[0].content[0]), "replaced");
}

#[test]
fn after_tool_call_keeps_what_it_omits() {
    let executed = Rc::new(RefCell::new(vec![]));
    let (mut w, ctx) = echo_setup(&executed, vec![call("tool-1", "echo", r#"{"value":"x"}"#)]);
    w.after = Box::new(|_| Some(AfterToolCallResult { content: None, details: None, is_error: None }));
    let mut config = base_loop_config(test_model());
    config.after_tool_call = Some(hook(9));
    let _ = run("x", ctx, config, &mut w);
    let results = tool_results(&w.events);
    assert!(!results[0].is_error);
    assert_eq!(results[0].details, Some(json(r#"{"value":"x"}"#)));
    assert_eq!(block_text(&results[0].content[0]), "echoed: x");
}

#[test]
fn tool_on_update_emits_tool_execution_update_events() {
    let executed = Rc::new(RefCell::new(vec![]));
    let (mut w, ctx) = echo_setup(&executed, vec![call("tool-1", "echo", r#"{"value":"a"}"#)]);
    w.tools.get_mut(&1).unwrap().updates =
        vec![AgentToolResult { content: vec![text_block("partial")], details: None }];
    let _ = run("x", ctx, base_loop_config(test_model()), &mut w);
    let updates: Vec<(&str, &AgentToolResult)> = w
        .events
        .iter()
        .filter_map(|e| match e {
            AgentEvent::ToolExecutionUpdate { tool_call_id, partial_result, args, .. } => {
                assert_eq!(*args, json(r#"{"value":"a"}"#));
                Some((tool_call_id.as_str(), partial_result))
            }
            _ => None,
        })
        .collect();
    assert_eq!(updates.len(), 1);
    assert_eq!(updates[0].0, "tool-1");
    assert_eq!(block_text(&updates[0].1.content[0]), "partial");
}

#[test]
fn failing_tool_yields_its_error_text() {
    let executed = Rc::new(RefCell::new(vec![]));
    let (mut w, ctx) = echo_setup(&executed, vec![call("tool-1", "echo", r#"{"value":"a"}"#)]);
    w.tools.get_mut(&1).unwrap().execute =
        Box::new(|_, _, _| Execution::Failed(AgentError::Other("no luck".into())));
    let _ = run("x", ctx, base_loop_config(test_model()), &mut w);
    let results = tool_results(&w.events);
    assert!(results[0].is_error);
    assert_eq!(block_text(&results[0].content[0]), "no luck");
    assert!(matches!(w.events.last(), Some(AgentEvent::RunCompleted { .. })));
}

#[test]
fn parallel_mode_runs_concurrently_but_tool_results_in_source_order() {
    let executed = Rc::new(RefCell::new(vec![]));
    let (mut w, ctx) = echo_setup(
        &executed,
        vec![
            call("tool-1", "echo", r#"{"value":"first"}"#),
            call("tool-2", "echo", r#"{"value":"second"}"#),
        ],
    );
    let mut config = base_loop_config(test_model());
    config.tool_execution = ToolExecutionMode::Parallel;
    let _ = run("x", ctx, config, &mut w);
    assert_eq!(w.spawned, vec![0, 1], "both are started before either is joined");
    let ids: Vec<&str> = tool_results(&w.events).iter().map(|r| r.tool_call_id.as_str()).collect();
    assert_eq!(ids, vec!["tool-1", "tool-2"]);
    let types = event_types(&w.events);
    let starts: Vec<usize> = (0..types.len()).filter(|i| types[*i] == "tool_execution_start").collect();
    let ends: Vec<usize> = (0..types.len()).filter(|i| types[*i] == "tool_execution_end").collect();
    assert!(starts[1] < ends[0], "{types:?}");
}

#[test]
fn refused_calls_keep_their_place_among_parallel_results() {
    let executed = Rc::new(RefCell::new(vec![]));
    let (mut w, ctx) = echo_setup(
        &executed,
        vec![
            call("tool-1", "echo", r#"{"value":"first"}"#),
            call("tool-2", "nowhere", "{}"),
            call("tool-3", "echo", r#"{"value":"third"}"#),
        ],
    );
    let _ = run("x", ctx, base_loop_config(test_model()), &mut w);
    let results: Vec<(&str, bool)> =
        tool_results(&w.events).iter().map(|r| (r.tool_call_id.as_str(), r.is_error)).collect();
    assert_eq!(results, vec![("tool-1", false), ("tool-2", true), ("tool-3", false)]);
    assert_eq!(started_ids(&w.events), ended_ids(&w.events));
    assert_eq!(w.spawned, vec![0, 2]);
    let turn_results = w
        .events
        .iter()
        .find_map(|e| match e {
            AgentEvent::TurnEnd { tool_results, .. } => Some(tool_results.len()),
            _ => None,
        })
        .unwrap();
    assert_eq!(turn_results, 3);
}

#[test]
fn broken_task_fails_the_run() {
    let executed = Rc::new(RefCell::new(vec![]));
    let (mut w, ctx) = echo_setup(&executed, vec![call("tool-1", "echo", r#"{"value":"first"}"#)]);
    w.broken_slots = vec![0];
    match run("x", ctx, base_loop_config(test_model()), &mut w) {
        RunOutcome::Failed { error, new_messages } => {
            assert_eq!(error.to_text(), "Task join error: task panicked");
            assert_eq!(new_messages.len(), 3);
        }
        _ => panic!("expected failure"),
    }
    assert!(matches!(
        w.events.last(),
        Some(AgentEvent::RunFailed { error_message, .. })
            if error_message == "Task join error: task panicked"
    ));
}

#[test]
fn broken_task_keeps_the_results_shown_before() {
    let executed = Rc::new(RefCell::new(vec![]));
    let (mut w, mut ctx) = echo_setup(
        &executed,
        vec![
            call("tool-1", "echo", r#"{"value":"first"}"#),
            call("tool-2", "echo", r#"{"value":"second"}"#),
            call("tool-3", "echo", r#"{"value":"third"}"#),
        ],
    );
    ctx.messages = vec![user_message("old")];
    w.broken_slots = vec![1];
    let outcome = run("x", ctx, base_loop_config(test_model()), &mut w);
    let RunOutcome::Failed { error, new_messages } = outcome else {
        panic!("expected failure");
    };
    assert_eq!(error.to_text(), "Task join error: task panicked");
    let reported: Vec<&str> = new_messages.iter().map(|m| m.role()).collect();
    assert_eq!(reported, vec!["user", "assistant", "toolResult", "assistant"]);
    let kept = new_messages[2].as_tool_result().expect("tool result");
    assert_eq!(kept.tool_call_id, "tool-1");
    assert_eq!(block_text(&kept.content[0]), "echoed: first");
    let last = new_messages[3].as_assistant().expect("assistant");
    assert_eq!(last.error_message.as_deref(), Some("Task join error: task panicked"));

    let completed: Vec<&str> = w
        .events
        .iter()
        .filter_map(|e| match e {
            AgentEvent::MessageEnd { message } => Some(message.role()),
            _ => None,
        })
        .collect();
    assert_eq!(completed, reported);
    let told: Vec<&str> =
        tool_results(&w.events).iter().map(|r| r.tool_call_id.as_str()).collect();
    assert_eq!(told, vec!["tool-1"]);
    let Some(AgentEvent::TurnEnd { message, tool_results }) = w.events.iter().rev().nth(1) else {
        panic!("expected the end of the turn before the terminal event");
    };
    assert_eq!(message.role(), "assistant");
    assert_eq!(tool_results.len(), 1);
    assert_eq!(tool_results[0].tool_call_id, "tool-1");
    match w.events.last() {
        Some(AgentEvent::RunFailed { messages, error_message }) => {
            assert_eq!(messages.len(), 4);
            assert_eq!(error_message, "Task join error: task panicked");
        }
        _ => panic!("expected a failed run"),
    }
}

#[test]
fn broken_task_still_closes_the_refused_calls_behind_it() {
    let executed = Rc::new(RefCell::new(vec![]));
    let (mut w, ctx) = echo_setup(
        &executed,
        vec![
            call("tool-1", "echo", r#"{"value":"first"}"#),
            call("tool-2", "missing", "{}"),
            call("tool-3", "echo", r#"{"value":"third"}"#),
            call("tool-4", "echo", "{}"),
        ],
    );
    w.broken_slots = vec![0];
    let outcome = run("x", ctx, base_loop_config(test_model()), &mut w);
    let RunOutcome::Failed { error, new_messages } = outcome else {
        panic!("expected failure");
    };
    assert_eq!(error.to_text(), "Task join error: task panicked");
    assert_eq!(started_ids(&w.events), vec!["tool-1", "tool-2", "tool-3", "tool-4"]);
    assert_eq!(ended_ids(&w.events), vec!["tool-2", "tool-4"]);
    let roles: Vec<&str> = new_messages.iter().map(|m| m.role()).collect();
    assert_eq!(roles, vec!["user", "assistant", "toolResult", "toolResult", "assistant"]);
    let missing = new_messages[2].as_tool_result().expect("tool result");
    assert_eq!(missing.tool_call_id, "tool-2");
    assert!(missing.is_error);
    assert_eq!(block_text(&missing.content[0]), "Tool missing not found");
    assert_eq!(new_messages[3].as_tool_result().expect("tool result").tool_call_id, "tool-4");
    assert_eq!(
        event_types(&w.events)[9..],
        [
            "tool_execution_start",
            "tool_execution_end",
            "message_start",
            "message_end",
            "tool_execution_end",
            "message_start",
            "message_end",
            "message_start",
            "message_end",
            "turn_end",
            "run_failed",
        ]
    );
}

#[test]
fn prompted_run_agrees_with_one_that_continues_from_the_prompts() {
    let model = test_model();
    let calls = || vec![call("tool-1", "echo", r#"{"value":"a"}"#), call("tool-2", "none", "{}")];
    let executed = Rc::new(RefCell::new(vec![]));
    let (mut prompted_world, mut ctx) = echo_setup(&executed, calls());
    ctx.messages = vec![user_message("old")];
    let prompted = run("new", ctx, base_loop_config(test_model()), &mut prompted_world);

    let (mut continued_world, mut ctx) = echo_setup(&executed, calls());
    ctx.messages = vec![user_message("old"), user_message("new")];
    let cancel = CancellationToken::new();
    let started = match run_agent_loop_continue(ctx, base_loop_config(model), cancel.clone()) {
        Ok(progress) => progress,
        Err(_) => panic!("continue ok"),
    };
    let continued = drive(started, &mut continued_world, &cancel);

    let told = event_types(&prompted_world.events);
    let mut expected = event_types(&continued_world.events);
    expected.splice(2..2, ["message_start", "message_end"]);
    assert_eq!(told, expected);
    assert_eq!(told.iter().filter(|kind| **kind == "agent_start").count(), 1);
    assert_eq!(told[0], "agent_start");
    match (prompted, continued) {
        (
            RunOutcome::Completed { new_messages: with_prompt },
            RunOutcome::Completed { new_messages: without },
        ) => {
            let roles = |messages: &[AgentMessage]| -> Vec<String> {
                messages.iter().map(|m| m.role().to_string()).collect()
            };
            assert_eq!(with_prompt[0].role(), "user");
            assert_eq!(roles(&with_prompt[1..]), roles(&without));
        }
        _ => panic!("expected completion"),
    }
}

#[test]
fn steering_messages_injected_only_after_all_tool_calls_finish() {
    let model = test_model();
    let executed: Rc<RefCell<Vec<Value>>> = Rc::new(RefCell::new(vec![]));
    let first = assistant_with_tool_calls(
        &model,
        vec![
            call("tool-1", "echo", r#"{"value":"first"}"#),
            call("tool-2", "echo", r#"{"value":"second"}"#),
        ],
    );
    let second = assistant_text("done", &model);
    let saw = Rc::new(RefCell::new(0));
    let saw_in = saw.clone();
    let mut round = 0;
    let mut w = world(Box::new(move |_, ctx, _| {
        round += 1;
        if round == 2
            && ctx.messages.iter().any(|m| match m {
                Message::User(u) => u.content == UserContent::Plain("interrupt".into()),
                _ => false,
            })
        {
            *saw_in.borrow_mut() += 1;
        }
        Ok(done(if round == 1 { first.clone() } else { second.clone() }))
    }));
    w.tools.insert(1, echo_tool(executed.clone()));
    let ran = executed.clone();
    let mut given = false;
    w.steering = Box::new(move || {
        if !ran.borrow().is_empty() && !given {
            given = true;
            vec![user_message("interrupt")]
        } else {
            vec![]
        }
    });
    let mut config = base_loop_config(model);
    config.tool_execution = ToolExecutionMode::Sequential;
    config.get_steering_messages = Some(MessageSource::Hook(hook(1)));
    let _ = run("start", context(vec![tool(1, "echo", echo_schema())]), config, &mut w);
    assert_eq!(
        *executed.borrow(),
        vec![json(r#"{"value":"first"}"#), json(r#"{"value":"second"}"#)]
    );
    let sequence: Vec<String> = w
        .events
        .iter()
        .filter_map(|e| match e {
            AgentEvent::MessageStart { message: AgentMessage::ToolResult(r) } => {
                Some(format!("tool:{}", r.tool_call_id))
            }
            AgentEvent::MessageStart { message: AgentMessage::User(u) } => match &u.content {
                UserContent::Plain(s) => Some(s.clone()),
                _ => None,
            },
            _ => None,
        })
        .collect();
    assert_eq!(sequence, vec!["start", "tool:tool-1", "tool:tool-2", "interrupt"]);
    assert_eq!(*saw.borrow(), 1);
}

#[test]
fn sequential_abort_stops_starting_later_tools() {
    let executed = Rc::new(RefCell::new(vec![]));
    let (mut w, ctx) = echo_setup(
        &executed,
        vec![
            call("tool-1", "echo", r#"{"value":"first"}"#),
            call("tool-2", "echo", r#"{"value":"second"}"#),
        ],
    );
    let started = Rc::new(RefCell::new(Vec::<String>::new()));
    let note = started.clone();
    w.tools.get_mut(&1).unwrap().execute = Box::new(move |id, _, cancel| {
        note.borrow_mut().push(id.to_string());
        cancel.cancel();
        Execution::Failed(AgentError::Aborted)
    });
    let mut config = base_loop_config(test_model());
    config.tool_execution = ToolExecutionMode::Sequential;
    let _ = run("start", ctx, config, &mut w);
    assert_eq!(*started.borrow(), vec!["tool-1"]);
    assert_eq!(started_ids(&w.events), vec!["tool-1"]);
    assert_eq!(ended_ids(&w.events), vec!["tool-1"]);
    assert_eq!(block_text(&tool_results(&w.events)[0].content[0]), "Run aborted");
    assert!(matches!(w.events.last(), Some(AgentEvent::RunAborted { .. })));
}

#[test]
fn parallel_abort_during_preparation_stops_later_starts_and_execution() {
    let executed = Rc::new(RefCell::new(vec![]));
    let (mut w, ctx) = echo_setup(
        &executed,
        vec![
            call("tool-1", "echo", r#"{"value":"first"}"#),
            call("tool-2", "echo", r#"{"value":"second"}"#),
        ],
    );
    w.before = Box::new(|_, cancel| {
        cancel.cancel();
        (None, None)
    });
    let mut config = base_loop_config(test_model());
    config.tool_execution = ToolExecutionMode::Parallel;
    config.before_tool_call = Some(hook(9));
    let _ = run("start", ctx, config, &mut w);
    assert!(executed.borrow().is_empty(), "no tools should execute once cancel fires");
    assert_eq!(started_ids(&w.events), vec!["tool-1"]);
    assert_eq!(ended_ids(&w.events), vec!["tool-1"]);
    assert!(matches!(w.events.last(), Some(AgentEvent::RunAborted { .. })));
}

#[test]
fn calls_that_were_never_started_are_closed_as_aborted() {
    let executed = Rc::new(RefCell::new(vec![]));
    let (mut w, ctx) = echo_setup(
        &executed,
        vec![
            call("tool-1", "echo", r#"{"value":"first"}"#),
            call("tool-2", "echo", r#"{"value":"second"}"#),
        ],
    );
    w.tools.get_mut(&1).unwrap().execute = Box::new(|_, _, cancel| {
        cancel.cancel();
        Execution::Returned(AgentToolResult { content: vec![text_block("ran")], details: None })
    });
    let _ = run("start", ctx, base_loop_config(test_model()), &mut w);
    assert_eq!(w.spawned, vec![0]);
    let results = tool_results(&w.events);
    assert_eq!(results.len(), 2);
    assert_eq!(block_text(&results[0].content[0]), "ran");
    assert!(!results[0].is_error);
    assert_eq!(block_text(&results[1].content[0]), "Run aborted");
    assert!(results[1].is_error);
    assert_eq!(started_ids(&w.events), ended_ids(&w.events));
    assert!(matches!(w.events.last(), Some(AgentEvent::RunAborted { .. })));
}

#[test]
fn one_terminal_event_ends_a_run_whatever_happens() {
    let model = test_model();
    let mut worlds = vec![
        world(stream_done_only(assistant_text("ok", &model))),
        world(Box::new(|_, _, _| Err(AgentError::Stream("boom".into())))),
        world(Box::new(|_, _, _| Ok(vec![Item::Cancel]))),
    ];
    for w in worlds.iter_mut() {
        let _ = run("x", context(vec![]), base_loop_config(test_model()), w);
        let terminal: Vec<usize> = event_types(&w.events)
            .iter()
            .enumerate()
            .filter(|(_, t)| t.starts_with("run_"))
            .map(|(i, _)| i)
            .collect();
        assert_eq!(terminal, vec![w.events.len() - 1]);
    }
}

#[test]
fn completed_messages_are_the_reported_ones() {
    let executed = Rc::new(RefCell::new(vec![]));
    let (mut w, ctx) = echo_setup(&executed, vec![call("tool-1", "echo", r#"{"value":"a"}"#)]);
    let outcome = run("x", ctx, base_loop_config(test_model()), &mut w);
    let completed: Vec<&str> = w
        .events
        .iter()
        .filter_map(|e| match e {
            AgentEvent::MessageEnd { message } => Some(message.role()),
            _ => None,
        })
        .collect();
    assert_eq!(completed, vec!["user", "assistant", "toolResult", "assistant"]);
    match outcome {
        RunOutcome::Completed { new_messages } => {
            let reported: Vec<&str> = new_messages.iter().map(|m| m.role()).collect();
            assert_eq!(reported, completed);
        }
        _ => panic!("expected completion"),
    }
}

#[test]
fn later_turns_see_the_context_of_earlier_ones() {
    let model = test_model();
    let executed = Rc::new(RefCell::new(vec![]));
    let first = assistant_with_tool_calls(&model, vec![call("tool-1", "echo", r#"{"value":"a"}"#)]);
    let second = assistant_text("done", &model);
    let mut round = 0;
    let mut w = world(Box::new(move |_, ctx, _| {
        round += 1;
        let roles: Vec<&str> = ctx.messages.iter().map(|m| m.role()).collect();
        if round == 1 {
            assert_eq!(roles, vec!["user"]);
            assert_eq!(ctx.tools.len(), 1);
            assert_eq!(ctx.tools[0].name, "echo");
            assert_eq!(ctx.tools[0].description, "echo tool");
            Ok(done(first.clone()))
        } else {
            assert_eq!(roles, vec!["user", "assistant", "toolResult"]);
            Ok(done(second.clone()))
        }
    }));
    w.tools.insert(1, echo_tool(executed.clone()));
    let outcome = run("x", context(vec![tool(1, "echo", echo_schema())]), base_loop_config(model), &mut w);
    assert!(matches!(outcome, RunOutcome::Completed { .. }));
}

/// Whether the events nest: turns one after the other, and messages one after the other.
fn nest(events: &[AgentEvent]) -> bool {
    let (mut in_turn, mut in_message) = (false, false);
    for kind in event_types(events) {
        let fits = match kind {
            "turn_start" => !std::mem::replace(&mut in_turn, true),
            "turn_end" => std::mem::replace(&mut in_turn, false),
            "message_start" => !std::mem::replace(&mut in_message, true),
            "message_update" => in_message,
            "message_end" => std::mem::replace(&mut in_message, false),
            _ => true,
        };
        if !fits {
            return false;
        }
    }
    !in_turn && !in_message
}

#[test]
fn turns_and_messages_nest_over_several_turns() {
    let model = test_model();
    let executed = Rc::new(RefCell::new(vec![]));
    let (mut w, ctx) = echo_setup(
        &executed,
        vec![
            call("a", "echo", r#"{"value":"1"}"#),
            call("b", "missing", "{}"),
            call("c", "echo", r#"{"value":"2"}"#),
        ],
    );
    let outcome = run("go", ctx, base_loop_config(model), &mut w);
    assert!(matches!(outcome, RunOutcome::Completed { .. }));
    assert!(nest(&w.events));
}

#[test]
fn turn_stays_open_where_a_run_is_aborted_before_the_model_is_called() {
    let model = test_model();
    let mut w = world(stream_done_only(assistant_text("late", &model)));
    w.listener = Box::new(|event, cancel| {
        if matches!(event, AgentEvent::AgentStart) {
            cancel.cancel();
        }
    });
    let outcome = run("go", context(vec![]), base_loop_config(model), &mut w);
    assert!(matches!(outcome, RunOutcome::Aborted { .. }));
    assert_eq!(
        event_types(&w.events),
        vec!["agent_start", "turn_start", "message_start", "message_end", "run_aborted"]
    );
}

#[test]
fn failed_run_ends_on_a_message_that_tells_why() {
    let model = test_model();
    let mut w = world(Box::new(|_, _, _| Err(AgentError::Other("no route".into()))));
    match run("go", context(vec![]), base_loop_config(model), &mut w) {
        RunOutcome::Failed { new_messages, error } => {
            assert_eq!(error.to_text(), "no route");
            let last = new_messages.last().and_then(|m| m.as_assistant()).expect("assistant");
            assert_eq!(last.stop_reason, StopReason::Error);
            assert_eq!(last.error_message.as_deref(), Some("no route"));
        }
        _ => panic!("expected a failure"),
    }
    assert!(matches!(
        w.events.last(),
        Some(AgentEvent::RunFailed { error_message, .. }) if error_message == "no route"
    ));
}
