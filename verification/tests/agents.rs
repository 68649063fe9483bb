//! The stateful agent, with its runs driven step by step.

use std::cell::RefCell;
use std::collections::HashMap;
use std::rc::Rc;

use oh_my_agentloop::{
    create_prompt_message, default_convert_to_llm, observe, outcome_to_result, tool_update_event,
    AfterToolCallContext, AfterToolCallResult, Agent, AgentError, AgentEvent, AgentMessage,
    AgentOptions, AgentTool, AgentToolResult, AssistantMessage, BeforeToolCallContext,
    BeforeToolCallResult, ContentBlock, DoubleBits, Execution, HookId, ImageContent,
    InitialAgentState, Join, LlmContext, Message, MessageConverter, MessageSource, Model,
    ModelCost, Opening, PendingMessageQueue, Progress, QueueMode, Reply, Request, RunOutcome,
    StopReason, StreamEvent, StreamPoll, StreamRequest, TextContent, ThinkingBudgets,
    ThinkingContent, ThinkingLevel, ToolCallContent, ToolExecutionMode, ToolResultMessage,
    Transport, Usage, UserContent, UserContentBlock, UserMessage,
};
use serde_json::Value;
use tokio_util::sync::CancellationToken;

fn json(text: &str) -> Value {
    serde_json::from_str(text).expect("json")
}

fn test_model() -> Model {
    Model {
        id: "mock".into(),
        name: "mock".into(),
        api: "openai-responses".into(),
        provider: "openai".into(),
        base_url: "https://example.invalid".into(),
        reasoning: false,
        input: vec!["text".into()],
        cost: ModelCost::default(),
        context_window: 8192,
        max_tokens: 2048,
    }
}

fn user_message(text: &str) -> AgentMessage {
    AgentMessage::User(UserMessage {
        content: UserContent::Plain(text.into()),
        timestamp: 0,
    })
}

fn text_block(text: &str) -> ContentBlock {
    ContentBlock::Text(TextContent {
        text: text.into(),
        text_signature: None,
    })
}

fn assistant_text(text: &str, model: &Model) -> AssistantMessage {
    AssistantMessage {
        content: vec![text_block(text)],
        model: model.id.clone(),
        provider: model.provider.clone(),
        api: model.api.clone(),
        response_id: None,
        stop_reason: StopReason::Stop,
        error_message: None,
        usage: Usage::default(),
        timestamp: 0,
    }
}

fn assistant_with_tool_calls(model: &Model, calls: Vec<ToolCallContent>) -> AssistantMessage {
    let mut message = assistant_text("", model);
    message.content = calls.into_iter().map(ContentBlock::ToolCall).collect();
    message.stop_reason = StopReason::ToolUse;
    message
}

fn call(id: &str, name: &str, arguments: &str) -> ToolCallContent {
    ToolCallContent {
        id: id.into(),
        name: name.into(),
        arguments: json(arguments),
    }
}

/// What a scripted stream does next.
enum Item {
    Event(StreamEvent),
    Fail(AgentError),
    /// The run is cancelled while it waits.
    Cancel,
    /// The run is cancelled just before the event comes.
    CancelThenEvent(StreamEvent),
}

type Execute = Box<dyn FnMut(&str, Value, &CancellationToken) -> Execution>;
type OpenFn = Box<dyn FnMut(&Model, &LlmContext, &StreamRequest) -> Result<Vec<Item>, AgentError>>;

struct Tool {
    prepare: fn(Value) -> Value,
    updates: Vec<AgentToolResult>,
    execute: Execute,
}

/// The surroundings of a run.
struct World {
    open: OpenFn,
    stream: Vec<Item>,
    tools: HashMap<u64, Tool>,
    joins: HashMap<usize, Join>,
    spawned: Vec<usize>,
    broken_slots: Vec<usize>,
    steering: Box<dyn FnMut() -> Vec<AgentMessage>>,
    follow_up: Box<dyn FnMut() -> Vec<AgentMessage>>,
    key: Option<String>,
    before: Box<dyn FnMut(&BeforeToolCallContext, &CancellationToken) -> (Option<BeforeToolCallResult>, Option<Value>)>,
    after: Box<dyn FnMut(&AfterToolCallContext) -> Option<AfterToolCallResult>>,
    listener: Box<dyn FnMut(&AgentEvent, &CancellationToken)>,
    log: Vec<String>,
    events: Vec<AgentEvent>,
}

fn world(open: OpenFn) -> World {
    World {
        open,
        stream: vec![],
        tools: HashMap::new(),
        joins: HashMap::new(),
        spawned: vec![],
        broken_slots: vec![],
        steering: Box::new(|| vec![]),
        follow_up: Box::new(|| vec![]),
        key: None,
        before: Box::new(|_, _| (None, None)),
        after: Box::new(|_| None),
        listener: Box::new(|_, _| ()),
        log: vec![],
        events: vec![],
    }
}

fn done(message: AssistantMessage) -> Vec<Item> {
    vec![Item::Event(StreamEvent::Done { message })]
}

fn stream_done_only(message: AssistantMessage) -> OpenFn {
    Box::new(move |_, _, _| Ok(done(message.clone())))
}

fn stream_two_rounds(first: AssistantMessage, second: AssistantMessage) -> OpenFn {
    let mut round = 0;
    Box::new(move |_, _, _| {
        round += 1;
        Ok(done(if round == 1 { first.clone() } else { second.clone() }))
    })
}

impl World {
    fn execute(&mut self, tool: HookId, tool_call: &ToolCallContent, args: Value, cancel: &CancellationToken) -> Execution {
        let tool = self.tools.get_mut(&tool.id).expect("tool");
        let updates = tool.updates.clone();
        for update in updates {
            self.events.push(tool_update_event(tool_call, update));
        }
        (tool.execute)(&tool_call.id, args, cancel)
    }

    fn answer(&mut self, request: Request, cancel: &CancellationToken) -> Reply {
        match request {
            Request::Checkpoint => Reply::Done,
            Request::PollSteering { .. } => Reply::Messages((self.steering)()),
            Request::PollFollowUp { .. } => Reply::Messages((self.follow_up)()),
            Request::TransformContext { messages, .. } => {
                self.log.push("transform".into());
                Reply::Messages(messages)
            }
            Request::ConvertToLlm { messages, .. } => {
                self.log.push("convert".into());
                Reply::LlmMessages(default_convert_to_llm(messages))
            }
            Request::ResolveApiKey { provider, .. } => {
                self.log.push(format!("key for {provider}"));
                Reply::ApiKey(self.key.clone())
            }
            Request::OpenStream { model, llm_context, request } => {
                match (self.open)(&model, &llm_context, &request) {
                    Ok(items) => {
                        self.stream = items;
                        Reply::Opened(Opening::Opened)
                    }
                    Err(error) => Reply::Opened(Opening::Failed(error)),
                }
            }
            Request::NextStreamEvent => {
                if self.stream.is_empty() {
                    return Reply::Streamed(StreamPoll::Ended);
                }
                Reply::Streamed(match self.stream.remove(0) {
                    Item::Event(event) => StreamPoll::Event(event),
                    Item::Fail(error) => StreamPoll::Failed(error),
                    Item::Cancel => {
                        cancel.cancel();
                        StreamPoll::Cancelled
                    }
                    Item::CancelThenEvent(event) => {
                        cancel.cancel();
                        StreamPoll::Event(event)
                    }
                })
            }
            Request::PrepareArguments { tool, arguments } => {
                Reply::Arguments((self.tools[&tool.id].prepare)(arguments))
            }
            Request::BeforeToolCall { before_context, cancel, .. } => {
                let (result, args) = (self.before)(&before_context, &cancel);
                Reply::Before { result, args: args.unwrap_or(before_context.args) }
            }
            Request::ExecuteTool { tool, tool_call, args, cancel } => {
                Reply::Executed(self.execute(tool, &tool_call, args, &cancel))
            }
            Request::SpawnTool { slot, tool, tool_call, args, cancel } => {
                let execution = self.execute(tool, &tool_call, args, &cancel);
                let join = if self.broken_slots.contains(&slot) {
                    Join::Broken("task panicked".into())
                } else {
                    Join::Finished(execution)
                };
                self.joins.insert(slot, join);
                self.spawned.push(slot);
                Reply::Done
            }
            Request::JoinTool { slot } => Reply::Joined(self.joins.remove(&slot).expect("a started slot")),
            Request::AfterToolCall { after_context, .. } => Reply::After((self.after)(&after_context)),
            Request::Finish { .. } => unreachable!(),
        }
    }
}

fn echo_schema() -> Value {
    json(r#"{"type":"object","properties":{"value":{"type":"string"}},"required":["value"]}"#)
}

fn tool(handle: u64, name: &str, parameters: Value) -> AgentTool {
    AgentTool {
        handle: HookId { id: handle },
        name: name.into(),
        label: name.into(),
        description: format!("{name} tool"),
        parameters,
    }
}

/// A tool that notes its arguments and echoes the value.
fn echo_tool(executed: Rc<RefCell<Vec<Value>>>) -> Tool {
    Tool {
        prepare: |args| args,
        updates: vec![],
        execute: Box::new(move |_, params, _| {
            executed.borrow_mut().push(params.clone());
            let value = match params.get("value") {
                Some(Value::String(s)) => s.clone(),
                Some(other) => other.to_string(),
                None => String::new(),
            };
            Execution::Returned(AgentToolResult {
                content: vec![text_block(&format!("echoed: {value}"))],
                details: Some(json(&format!("{{\"value\":\"{value}\"}}"))),
            })
        }),
    }
}

fn block_text(block: &ContentBlock) -> &str {
    match block {
        ContentBlock::Text(t) => &t.text,
        _ => panic!("expected text block"),
    }
}

fn started_ids(events: &[AgentEvent]) -> Vec<String> {
    events
        .iter()
        .filter_map(|e| match e {
            AgentEvent::ToolExecutionStart { tool_call_id, .. } => Some(tool_call_id.clone()),
            _ => None,
        })
        .collect()
}

fn ended_ids(events: &[AgentEvent]) -> Vec<String> {
    events
        .iter()
        .filter_map(|e| match e {
            AgentEvent::ToolExecutionEnd { tool_call_id, .. } => Some(tool_call_id.clone()),
            _ => None,
        })
        .collect()
}

fn event_types(events: &[AgentEvent]) -> Vec<&'static str> {
    events
        .iter()
        .map(|e| match e {
            AgentEvent::AgentStart => "agent_start",
            AgentEvent::RunCompleted { .. } => "run_completed",
            AgentEvent::RunFailed { .. } => "run_failed",
            AgentEvent::RunAborted { .. } => "run_aborted",
            AgentEvent::TurnStart => "turn_start",
            AgentEvent::TurnEnd { .. } => "turn_end",
            AgentEvent::MessageStart { .. } => "message_start",
            AgentEvent::MessageUpdate { .. } => "message_update",
            AgentEvent::MessageEnd { .. } => "message_end",
            AgentEvent::ToolExecutionStart { .. } => "tool_execution_start",
            AgentEvent::ToolExecutionUpdate { .. } => "tool_execution_update",
            AgentEvent::ToolExecutionEnd { .. } => "tool_execution_end",
            _ => "unknown",
        })
        .collect()
}

/// Drives a run of an agent to its end; `watch` sees every event once the agent has taken it.
fn drive(
    agent: &mut Agent,
    started: Result<Progress, AgentError>,
    world: &mut World,
    watch: &mut dyn FnMut(&AgentEvent, &Agent),
) -> Result<(), AgentError> {
    let mut progress = started?;
    let cancel = agent.signal().expect("an active run");
    loop {
        let Progress { run, events, request } = progress;
        for event in events {
            agent.process_event(&event);
            watch(&event, agent);
            (world.listener)(&event, &cancel);
            world.events.push(event);
        }
        let reply = match request {
            Request::Finish { outcome } => {
                agent.finish_run();
                return outcome_to_result(outcome);
            }
            Request::PollSteering { source } => {
                assert_eq!(source, MessageSource::AgentQueue);
                Reply::Messages(agent.poll_steering())
            }
            Request::PollFollowUp { source } => {
                assert_eq!(source, MessageSource::AgentQueue);
                Reply::Messages(agent.poll_follow_up())
            }
            other => world.answer(other, &cancel),
        };
        assert!(run.can_take(&reply));
        progress = run.step(reply, observe(&cancel));
    }
}

fn prompt(agent: &mut Agent, text: &str, world: &mut World) -> Result<(), AgentError> {
    let started = agent.prompt_text(text, None);
    drive(agent, started, world, &mut |_, _| ())
}

fn options() -> AgentOptions {
    AgentOptions::builder(HookId { id: 100 }).build()
}

fn initial(model: Model, messages: Option<Vec<AgentMessage>>, tools: Vec<AgentTool>) -> InitialAgentState {
    InitialAgentState {
        system_prompt: Some("You are helpful.".into()),
        model: Some(model),
        thinking_level: Some(ThinkingLevel::Off),
        tools: Some(tools),
        messages,
    }
}

fn agent_with(messages: Option<Vec<AgentMessage>>, tools: Vec<AgentTool>) -> Agent {
    Agent::new(
        AgentOptions::builder(HookId { id: 100 })
            .initial_state(initial(test_model(), messages, tools))
            .build(),
    )
}

fn plain(text: &str, timestamp: i64) -> AgentMessage {
    AgentMessage::User(UserMessage { content: UserContent::Plain(text.into()), timestamp })
}

fn last_assistant(agent: &Agent) -> AssistantMessage {
    agent.state().messages.last().and_then(|m| m.as_assistant()).expect("assistant").clone()
}

#[test]
fn new_agent_has_the_documented_defaults() {
    let agent = Agent::new(options());
    let state = agent.state();
    assert_eq!(state.system_prompt, "");
    assert_eq!(state.model.id, "unknown");
    assert_eq!(state.model.provider, "unknown");
    assert_eq!(state.model.base_url, "");
    assert_eq!(state.thinking_level, ThinkingLevel::Off);
    assert!(state.tools.is_empty());
    assert!(state.messages.is_empty());
    assert!(!state.is_streaming);
    assert_eq!(agent.steering_mode(), QueueMode::OneAtATime);
    assert_eq!(agent.follow_up_mode(), QueueMode::OneAtATime);
    assert!(agent.signal().is_none());
    assert!(agent.is_idle());
    assert!(agent.abort().is_none());
    assert_eq!(agent.stream_fn(), HookId { id: 100 });
    let config = agent.create_loop_config();
    assert_eq!(config.reasoning, None);
    assert_eq!(config.convert_to_llm, MessageConverter::Standard);
    assert_eq!(config.transport, Transport::Sse);
    assert_eq!(config.tool_execution, ToolExecutionMode::Parallel);
}

#[test]
fn builder_sets_what_it_is_told() {
    let hook = |id| HookId { id };
    let built = AgentOptions::builder(hook(1))
        .convert_to_llm(hook(2))
        .transform_context(hook(3))
        .get_api_key(hook(4))
        .before_tool_call(hook(5))
        .after_tool_call(hook(6))
        .steering_mode(QueueMode::All)
        .follow_up_mode(QueueMode::All)
        .session_id("s".into())
        .transport(Transport::Ws)
        .tool_execution(ToolExecutionMode::Sequential)
        .api_key("k".into())
        .temperature(DoubleBits { bits: 0.5f64.to_bits() })
        .max_tokens(7)
        .thinking_budgets(ThinkingBudgets::default())
        .max_retry_delay_ms(8)
        .on_payload(hook(9))
        .build();
    let mut agent = Agent::new(built);
    agent.set_thinking_level(ThinkingLevel::High);
    let config = agent.create_loop_config();
    assert_eq!(config.reasoning, Some(ThinkingLevel::High));
    assert_eq!(config.convert_to_llm, MessageConverter::Hook(hook(2)));
    assert_eq!(config.transform_context, Some(hook(3)));
    assert_eq!(config.get_api_key, Some(hook(4)));
    assert_eq!(config.before_tool_call, Some(hook(5)));
    assert_eq!(config.after_tool_call, Some(hook(6)));
    assert_eq!(config.get_steering_messages, Some(MessageSource::AgentQueue));
    assert_eq!(config.get_follow_up_messages, Some(MessageSource::AgentQueue));
    assert_eq!(config.session_id.as_deref(), Some("s"));
    assert_eq!(config.transport, Transport::Ws);
    assert_eq!(config.tool_execution, ToolExecutionMode::Sequential);
    assert_eq!(config.api_key.as_deref(), Some("k"));
    assert_eq!(config.temperature, Some(DoubleBits { bits: 0.5f64.to_bits() }));
    assert_eq!(config.max_tokens, Some(7));
    assert_eq!(config.thinking_budgets, Some(ThinkingBudgets::default()));
    assert_eq!(config.max_retry_delay_ms, Some(8));
    assert_eq!(config.on_payload, Some(hook(9)));
    assert_eq!(agent.steering_mode(), QueueMode::All);
    assert_eq!(agent.follow_up_mode(), QueueMode::All);
}

#[test]
fn setters_change_what_they_name() {
    let mut agent = Agent::new(options());
    agent.set_system_prompt("sys".into());
    agent.set_model(test_model());
    agent.set_tools(vec![tool(1, "echo", echo_schema())]);
    agent.set_messages(vec![user_message("u")]);
    agent.set_before_tool_call(Some(HookId { id: 2 }));
    agent.set_after_tool_call(Some(HookId { id: 3 }));
    agent.set_steering_mode(QueueMode::All);
    agent.set_follow_up_mode(QueueMode::All);
    let context = agent.create_context_snapshot();
    assert_eq!(context.system_prompt, "sys");
    assert_eq!(context.messages.len(), 1);
    assert_eq!(context.tools[0].name(), "echo");
    assert_eq!(context.tools[0].label(), "echo");
    assert_eq!(context.tools[0].parameters(), echo_schema());
    assert_eq!(agent.state().model.id, "mock");
    let config = agent.create_loop_config();
    assert_eq!(config.before_tool_call, Some(HookId { id: 2 }));
    assert_eq!(config.after_tool_call, Some(HookId { id: 3 }));
    assert_eq!(agent.steering_mode(), QueueMode::All);
    assert_eq!(agent.follow_up_mode(), QueueMode::All);
}

#[test]
fn second_prompt_while_streaming_returns_already_processing() {
    let mut agent = Agent::new(options());
    let first = agent.prompt_text("first", None);
    assert!(first.is_ok());
    assert!(agent.is_streaming());
    let refused = agent.prompt_text("second", None);
    match refused {
        Err(error) => {
            assert!(matches!(error, AgentError::AlreadyProcessing));
            assert_eq!(
                error.to_text(),
                "Agent is already processing a prompt. Use steer() or follow_up() to queue messages."
            );
        }
        Ok(_) => panic!("expected a refusal"),
    }
    let mut w = world(Box::new(|_, _, _| Ok(vec![Item::Cancel])));
    let ended = drive(&mut agent, first, &mut w, &mut |_, _| ());
    assert!(matches!(ended, Err(AgentError::Aborted)));
}

#[test]
fn continue_while_streaming_returns_already_processing() {
    let mut agent = Agent::new(options());
    let first = agent.prompt_text("first", None);
    assert!(matches!(agent.continue_run(), Err(AgentError::AlreadyProcessing)));
    let mut w = world(Box::new(|_, _, _| Ok(vec![Item::Cancel])));
    let ended = drive(&mut agent, first, &mut w, &mut |_, _| ());
    assert!(matches!(ended, Err(AgentError::Aborted)));
}

#[test]
fn continue_without_messages_is_refused() {
    let mut agent = Agent::new(options());
    assert!(matches!(agent.continue_run(), Err(AgentError::NoMessages)));
    assert!(agent.is_idle());
}

#[test]
fn continue_from_assistant_needs_a_queued_message() {
    let model = test_model();
    let mut agent = agent_with(
        Some(vec![user_message("u"), AgentMessage::Assistant(assistant_text("a", &model))]),
        vec![],
    );
    assert!(matches!(agent.continue_run(), Err(AgentError::ContinueFromAssistant)));
    assert!(agent.is_idle());
}

fn after_initial_exchange(mode: QueueMode) -> Agent {
    let model = test_model();
    Agent::new(
        AgentOptions::builder(HookId { id: 100 })
            .steering_mode(mode)
            .initial_state(InitialAgentState {
                system_prompt: None,
                model: Some(test_model()),
                thinking_level: None,
                tools: None,
                messages: Some(vec![
                    user_message("Initial"),
                    AgentMessage::Assistant(assistant_text("Initial response", &model)),
                ]),
            })
            .build(),
    )
}

fn counting_stream(count: Rc<RefCell<usize>>, text: &'static str) -> OpenFn {
    Box::new(move |model, _, _| {
        *count.borrow_mut() += 1;
        Ok(done(assistant_text(text, model)))
    })
}

#[test]
fn continue_from_assistant_drains_follow_up_after_turn() {
    let mut agent = after_initial_exchange(QueueMode::OneAtATime);
    let count = Rc::new(RefCell::new(0));
    let mut w = world(counting_stream(count.clone(), "Processed"));
    agent.follow_up(plain("Queued follow-up", 1));
    let started = agent.continue_run();
    assert!(drive(&mut agent, started, &mut w, &mut |_, _| ()).is_ok());
    let messages = agent.state().messages;
    let has_follow = messages.iter().any(|m| match m {
        AgentMessage::User(u) => u.content == UserContent::Plain("Queued follow-up".into()),
        _ => false,
    });
    assert!(has_follow);
    assert_eq!(messages.last().map(|m| m.role()), Some("assistant"));
    assert_eq!(*count.borrow(), 1);
}

#[test]
fn continue_from_assistant_one_at_a_time_steering_runs_two_llm_rounds() {
    let mut agent = after_initial_exchange(QueueMode::OneAtATime);
    let count = Rc::new(RefCell::new(0));
    let mut w = world(counting_stream(count.clone(), "Processed"));
    agent.steer(plain("Steering 1", 1));
    agent.steer(plain("Steering 2", 2));
    let started = agent.continue_run();
    assert!(drive(&mut agent, started, &mut w, &mut |_, _| ()).is_ok());
    assert_eq!(*count.borrow(), 2);
    let state = agent.state();
    let roles: Vec<&str> = state.messages.iter().map(|m| m.role()).collect();
    assert_eq!(roles[roles.len() - 4..], ["user", "assistant", "user", "assistant"]);
}

#[test]
fn steering_mode_all_drains_both_before_single_extra_llm_round() {
    let mut agent = after_initial_exchange(QueueMode::All);
    let count = Rc::new(RefCell::new(0));
    let mut w = world(counting_stream(count.clone(), "Once"));
    agent.steer(plain("A", 1));
    agent.steer(plain("B", 2));
    let started = agent.continue_run();
    assert!(drive(&mut agent, started, &mut w, &mut |_, _| ()).is_ok());
    assert_eq!(*count.borrow(), 1);
    assert!(!agent.has_queued_messages());
}

#[test]
fn steering_prompts_skip_the_first_poll() {
    let mut agent = after_initial_exchange(QueueMode::OneAtATime);
    agent.steer(plain("A", 1));
    agent.steer(plain("B", 2));
    let started = agent.continue_run();
    assert!(started.is_ok());
    assert!(agent.poll_steering().is_empty(), "the first poll finds nothing");
    assert_eq!(agent.poll_steering().len(), 1);
    assert!(agent.poll_steering().is_empty());
}

#[test]
fn queues_hand_out_messages_in_order() {
    let mut queue = PendingMessageQueue::new(QueueMode::OneAtATime);
    assert!(!queue.has_items());
    assert!(queue.drain().is_empty());
    queue.enqueue(plain("a", 1));
    queue.enqueue(plain("b", 2));
    queue.enqueue(plain("c", 3));
    let timestamps = |messages: Vec<AgentMessage>| -> Vec<i64> {
        messages
            .iter()
            .map(|m| match m {
                AgentMessage::User(u) => u.timestamp,
                _ => panic!("user"),
            })
            .collect()
    };
    assert_eq!(timestamps(queue.drain()), vec![1]);
    queue.mode = QueueMode::All;
    assert_eq!(timestamps(queue.drain()), vec![2, 3]);
    assert!(!queue.has_items());
    queue.enqueue(plain("d", 4));
    queue.clear();
    assert!(!queue.has_items());
}

#[test]
fn reset_clears_messages_queues_and_runtime_fields() {
    let mut agent = Agent::new(
        AgentOptions::builder(HookId { id: 100 })
            .initial_state(InitialAgentState {
                system_prompt: Some("sys".into()),
                model: Some(test_model()),
                thinking_level: None,
                tools: None,
                messages: Some(vec![user_message("keep sys")]),
            })
            .build(),
    );
    agent.steer(user_message("q"));
    agent.follow_up(user_message("f"));
    assert!(agent.has_queued_messages());
    agent.reset();
    let s = agent.state();
    assert!(s.messages.is_empty());
    assert!(!s.is_streaming);
    assert!(s.streaming_message.is_none());
    assert!(s.pending_tool_calls.is_empty());
    assert!(s.error_message.is_none());
    assert!(!agent.has_queued_messages());
    assert_eq!(s.system_prompt, "sys");
    assert_eq!(s.model.id, "mock");
}

#[test]
fn forwards_session_id_to_stream_options() {
    let seen = Rc::new(RefCell::new(None::<String>));
    let note = seen.clone();
    let mut w = world(Box::new(move |model, _, req| {
        *note.borrow_mut() = req.options.session_id.clone();
        Ok(done(assistant_text("ok", model)))
    }));
    let mut agent = Agent::new(
        AgentOptions::builder(HookId { id: 100 }).session_id("session-abc".into()).build(),
    );
    assert!(prompt(&mut agent, "hello", &mut w).is_ok());
    assert_eq!(seen.borrow().as_deref(), Some("session-abc"));
    agent.set_session_id("session-def".into());
    assert!(prompt(&mut agent, "again", &mut w).is_ok());
    assert_eq!(seen.borrow().as_deref(), Some("session-def"));
}

#[test]
fn forwards_on_payload_to_stream_options() {
    let seen = Rc::new(RefCell::new(None));
    let note = seen.clone();
    let mut w = world(Box::new(move |model, _, req| {
        *note.borrow_mut() = req.options.on_payload;
        Ok(done(assistant_text("ok", model)))
    }));
    let mut agent =
        Agent::new(AgentOptions::builder(HookId { id: 100 }).on_payload(HookId { id: 5 }).build());
    assert!(prompt(&mut agent, "hello", &mut w).is_ok());
    assert_eq!(*seen.borrow(), Some(HookId { id: 5 }));
}

#[test]
fn abort_cancels_in_flight_run_and_clears_signal() {
    let mut agent = Agent::new(options());
    let started = agent.prompt_text("hi", None);
    assert!(!agent.signal().unwrap().is_cancelled());
    assert!(agent.abort().expect("the signal of the run").is_cancelled());
    assert!(agent.signal().unwrap().is_cancelled());
    assert!(agent.listener_signal().is_cancelled());
    let mut w = world(stream_done_only(assistant_text("late", &test_model())));
    let ended = drive(&mut agent, started, &mut w, &mut |_, _| ());
    assert!(matches!(ended, Err(AgentError::Aborted)));
    assert!(agent.signal().is_none());
    assert!(!agent.is_streaming());
    assert!(!agent.listener_signal().is_cancelled());
}

#[test]
fn abort_propagates_through_stream_request_cancel() {
    let mut agent = Agent::new(options());
    let started = agent.prompt_text("hello", None);
    let handed = Rc::new(RefCell::new(None::<CancellationToken>));
    let note = handed.clone();
    let mut w = world(Box::new(move |model, _, req| {
        assert!(!req.cancel.is_cancelled());
        *note.borrow_mut() = Some(req.cancel.clone());
        let mut message = assistant_text("", model);
        message.stop_reason = StopReason::Aborted;
        message.error_message = Some("Aborted".into());
        Ok(vec![
            Item::Event(StreamEvent::Start { partial: assistant_text("", model) }),
            Item::Event(StreamEvent::Error { message }),
        ])
    }));
    let seen = handed.clone();
    let ended = drive(&mut agent, started, &mut w, &mut |event, agent| {
        if let AgentEvent::MessageStart { message } = event {
            if message.role() == "assistant" {
                assert!(agent.is_streaming());
                agent.abort();
                let request_cancel = seen.borrow();
                assert!(request_cancel.as_ref().expect("the request's signal").is_cancelled());
            }
        }
    });
    assert!(matches!(ended, Err(AgentError::Aborted)));
    assert!(handed.borrow().is_some());
}

#[test]
fn streaming_flag_stays_until_the_run_settles() {
    let mut agent = Agent::new(options());
    let started = agent.prompt_text("hi", None);
    let mut w = world(stream_done_only(assistant_text("ok", &test_model())));
    let mut flags = vec![];
    let ended = drive(&mut agent, started, &mut w, &mut |_, agent| {
        flags.push((agent.is_streaming(), agent.is_idle()));
    });
    assert!(ended.is_ok());
    assert!(flags.iter().all(|f| *f == (true, false)));
    assert!(!agent.is_streaming());
    assert!(agent.is_idle());
}

#[test]
fn streaming_message_follows_the_events() {
    let model = test_model();
    let start = assistant_text("", &model);
    let half = assistant_text("half", &model);
    let full = assistant_text("full", &model);
    let mut w = world(Box::new(move |_, _, _| {
        Ok(vec![
            Item::Event(StreamEvent::Start { partial: start.clone() }),
            Item::Event(StreamEvent::TextDelta {
                content_index: 0,
                delta: "half".into(),
                partial: half.clone(),
            }),
            Item::Event(StreamEvent::Done { message: full.clone() }),
        ])
    }));
    let mut agent = Agent::new(options());
    let started = agent.prompt_text("hi", None);
    let mut seen = vec![];
    let ended = drive(&mut agent, started, &mut w, &mut |event, agent| {
        let text = agent
            .state()
            .streaming_message
            .and_then(|m| m.as_assistant().map(|a| block_text(&a.content[0]).to_string()));
        match event {
            AgentEvent::MessageStart { message } if message.role() == "assistant" => seen.push(text),
            AgentEvent::MessageUpdate { .. } => seen.push(text),
            AgentEvent::MessageEnd { .. } => assert_eq!(text, None),
            _ => (),
        }
    });
    assert!(ended.is_ok());
    assert_eq!(seen, vec![Some("".to_string()), Some("half".to_string())]);
}

#[test]
fn listeners_come_and_go_in_order() {
    let mut agent = Agent::new(options());
    let first = agent.subscribe(HookId { id: 1 });
    let _second = agent.subscribe(HookId { id: 2 });
    let _third = agent.subscribe(HookId { id: 3 });
    assert_eq!(agent.listeners(), vec![HookId { id: 1 }, HookId { id: 2 }, HookId { id: 3 }]);
    agent.unsubscribe(first);
    assert_eq!(agent.listeners(), vec![HookId { id: 2 }, HookId { id: 3 }]);
}

#[test]
fn dropping_one_of_two_subscriptions_of_a_listener_keeps_the_other() {
    let mut agent = Agent::new(options());
    let hook = |id| HookId { id };
    let first = agent.subscribe(hook(1));
    let _other = agent.subscribe(hook(2));
    let second = agent.subscribe(hook(1));
    agent.unsubscribe(second);
    assert_eq!(agent.listeners(), vec![hook(1), hook(2)]);
    let _third = agent.subscribe(hook(1));
    agent.unsubscribe(first);
    assert_eq!(agent.listeners(), vec![hook(2), hook(1)]);
}

#[test]
fn place_of_a_dropped_subscription_can_be_taken_again() {
    let mut agent = Agent::new(options());
    let hook = |id| HookId { id };
    let first = agent.subscribe(hook(1));
    let second = agent.subscribe(hook(2));
    agent.unsubscribe(first);
    let third = agent.subscribe(hook(3));
    assert_eq!(agent.listeners(), vec![hook(2), hook(3)]);
    agent.unsubscribe(third);
    agent.unsubscribe(second);
    assert!(agent.listeners().is_empty());
}

#[test]
fn prompt_text_builds_the_message() {
    let text_only = create_prompt_message("hello", None, 5).expect("message");
    match text_only {
        AgentMessage::User(u) => {
            assert_eq!(u.content, UserContent::Plain("hello".into()));
            assert_eq!(u.timestamp, 5);
        }
        _ => panic!("user"),
    }
    let image = ImageContent { data: "d".into(), mime_type: "image/png".into() };
    let with_image = create_prompt_message("look", Some(vec![image]), 6).expect("message");
    match with_image {
        AgentMessage::User(u) => {
            assert_eq!(
                u.content,
                UserContent::Blocks(vec![
                    UserContentBlock::Text(TextContent { text: "look".into(), text_signature: None }),
                    UserContentBlock::Image(ImageContent {
                        data: "d".into(),
                        mime_type: "image/png".into()
                    }),
                ])
            );
        }
        _ => panic!("user"),
    }
}

// ---- Errors ----

#[test]
fn agent_prompt_returns_runtime_error_and_keeps_failure_message() {
    let mut agent = agent_with(None, vec![]);
    let mut w = world(Box::new(|_, _, _| Err(AgentError::Stream("boom".into()))));
    let ended = prompt(&mut agent, "hello", &mut w);
    assert!(matches!(ended, Err(AgentError::Stream(message)) if message == "boom"));
    assert_eq!(last_assistant(&agent).stop_reason, StopReason::Error);
    assert_eq!(agent.state().error_message.as_deref(), Some("Stream error: boom"));
}

fn provider_error(text: Option<&str>) -> OpenFn {
    let mut message = assistant_text("", &test_model());
    message.stop_reason = StopReason::Error;
    message.error_message = text.map(|t| t.to_string());
    Box::new(move |_, _, _| Ok(vec![Item::Event(StreamEvent::Error { message: message.clone() })]))
}

#[test]
fn agent_prompt_returns_provider_error_terminal_as_runtime_error() {
    let mut agent = agent_with(None, vec![]);
    let mut w = world(provider_error(Some("provider boom")));
    let ended = prompt(&mut agent, "hello", &mut w);
    assert!(matches!(ended, Err(AgentError::Stream(message)) if message == "provider boom"));
    let message = last_assistant(&agent);
    assert_eq!(message.stop_reason, StopReason::Error);
    assert_eq!(message.error_message.as_deref(), Some("provider boom"));
    assert_eq!(agent.state().error_message.as_deref(), Some("provider boom"));
}

#[test]
fn agent_prompt_normalizes_missing_provider_error_message() {
    let mut agent = agent_with(None, vec![]);
    let mut w = world(provider_error(None));
    let ended = prompt(&mut agent, "hello", &mut w);
    assert!(matches!(ended, Err(AgentError::Stream(message)) if message == "Unknown stream error"));
    let message = last_assistant(&agent);
    assert_eq!(message.stop_reason, StopReason::Error);
    assert_eq!(message.error_message.as_deref(), Some("Unknown stream error"));
    assert_eq!(agent.state().error_message.as_deref(), Some("Unknown stream error"));
    assert!(matches!(
        w.events.last(),
        Some(AgentEvent::RunFailed { error_message, .. }) if error_message == "Unknown stream error"
    ));
}

#[test]
fn completed_terminal_event_wins_over_late_cancel() {
    let mut agent = agent_with(None, vec![]);
    let mut w = world(Box::new(|model, _, _| {
        Ok(vec![Item::CancelThenEvent(StreamEvent::Done { message: assistant_text("done", model) })])
    }));
    assert!(prompt(&mut agent, "hello", &mut w).is_ok());
    let message = last_assistant(&agent);
    assert_eq!(message.stop_reason, StopReason::Stop);
    assert_eq!(message.error_message, None);
    assert_eq!(agent.state().error_message, None);
    assert!(matches!(w.events.last(), Some(AgentEvent::RunCompleted { .. })));
}

#[test]
fn agent_prompt_returns_aborted_for_provider_supplied_aborted_terminal() {
    let mut agent = agent_with(None, vec![]);
    let mut message = assistant_text("", &test_model());
    message.stop_reason = StopReason::Aborted;
    message.error_message = Some("Aborted".into());
    let mut w = world(Box::new(move |_, _, _| {
        Ok(vec![Item::Event(StreamEvent::Error { message: message.clone() })])
    }));
    assert!(matches!(prompt(&mut agent, "hello", &mut w), Err(AgentError::Aborted)));
    let message = last_assistant(&agent);
    assert_eq!(message.stop_reason, StopReason::Aborted);
    assert_eq!(message.error_message.as_deref(), Some("Aborted"));
    assert!(matches!(w.events.last(), Some(AgentEvent::RunAborted { .. })));
}

#[test]
fn agent_prompt_returns_aborted_for_provider_construction_abort() {
    let mut agent = agent_with(None, vec![]);
    let mut w = world(Box::new(|_, _, _| Err(AgentError::Aborted)));
    assert!(matches!(prompt(&mut agent, "hello", &mut w), Err(AgentError::Aborted)));
    let message = last_assistant(&agent);
    assert_eq!(message.stop_reason, StopReason::Aborted);
    assert_eq!(message.error_message.as_deref(), Some("Aborted"));
    assert_eq!(agent.state().error_message.as_deref(), Some("Aborted"));
    assert!(matches!(w.events.last(), Some(AgentEvent::RunAborted { .. })));
}

#[test]
fn early_abort_does_not_reuse_historical_aborted_message() {
    let model = test_model();
    let mut old = assistant_text("", &model);
    old.stop_reason = StopReason::Aborted;
    old.error_message = Some("old abort".into());
    let mut agent =
        agent_with(Some(vec![user_message("previous"), AgentMessage::Assistant(old)]), vec![]);
    let called = Rc::new(RefCell::new(false));
    let note = called.clone();
    let mut w = world(Box::new(move |model, _, _| {
        *note.borrow_mut() = true;
        Ok(done(assistant_text("too late", model)))
    }));
    let started = agent.prompt_text("hello", None);
    let ended = drive(&mut agent, started, &mut w, &mut |event, agent| {
        if matches!(event, AgentEvent::MessageEnd { message: AgentMessage::User(_) }) {
            agent.abort();
        }
    });
    assert!(matches!(ended, Err(AgentError::Aborted)));
    assert!(!*called.borrow(), "the model is not called once a listener aborts before");
    assert_eq!(agent.state().error_message.as_deref(), Some("Run aborted"));
}

#[test]
fn agent_continue_returns_runtime_error_from_low_level_failure() {
    let mut agent = agent_with(Some(vec![user_message("hello")]), vec![]);
    let mut w = world(Box::new(|_, _, _| Err(AgentError::Stream("continue boom".into()))));
    let started = agent.continue_run();
    let ended = drive(&mut agent, started, &mut w, &mut |_, _| ());
    assert!(matches!(ended, Err(AgentError::Stream(message)) if message == "continue boom"));
}

// ---- Whole conversations ----

#[test]
fn multi_turn_context_is_preserved_across_prompts() {
    let mut agent = agent_with(None, vec![]);
    let mut round = 0;
    let mut w = world(Box::new(move |model, ctx, _| {
        round += 1;
        let knows = ctx.messages.iter().any(|m| match m {
            Message::User(u) => matches!(&u.content, UserContent::Plain(t) if t.contains("Alice")),
            _ => false,
        });
        let text = if round == 1 {
            "Nice to meet you, Alice."
        } else if knows {
            "Your name is Alice."
        } else {
            "I do not know your name."
        };
        Ok(done(assistant_text(text, model)))
    }));
    assert!(prompt(&mut agent, "My name is Alice.", &mut w).is_ok());
    assert_eq!(agent.state().messages.len(), 2);
    assert!(prompt(&mut agent, "What is my name?", &mut w).is_ok());
    assert_eq!(agent.state().messages.len(), 4);
    assert_eq!(block_text(&last_assistant(&agent).content[0]), "Your name is Alice.");
}

#[test]
fn thinking_blocks_are_preserved_in_stored_assistant_message() {
    let model = test_model();
    let mut message = assistant_text("4", &model);
    message.content = vec![
        ContentBlock::Thinking(ThinkingContent {
            thinking: "step by step".into(),
            thinking_signature: None,
            redacted: None,
        }),
        text_block("4"),
    ];
    let mut agent = agent_with(None, vec![]);
    agent.set_thinking_level(ThinkingLevel::Low);
    let mut w = world(stream_done_only(message));
    assert!(prompt(&mut agent, "What is 2+2?", &mut w).is_ok());
    let stored = last_assistant(&agent);
    assert_eq!(stored.content.len(), 2);
    assert!(matches!(&stored.content[0], ContentBlock::Thinking(t) if t.thinking == "step by step"));
    assert!(matches!(&stored.content[1], ContentBlock::Text(t) if t.text == "4"));
}

fn calculator() -> (AgentTool, Tool) {
    let schema = json(
        r#"{"type":"object","properties":{"expression":{"type":"string"}},"required":["expression"]}"#,
    );
    let run = Tool {
        prepare: |args| args,
        updates: vec![],
        execute: Box::new(|_, params, _| {
            let expression = params.get("expression").and_then(|v| v.as_str()).unwrap_or("").to_string();
            let parts: Vec<&str> = expression.split(" * ").collect();
            let value = parts[0].parse::<i64>().unwrap() * parts[1].parse::<i64>().unwrap();
            Execution::Returned(AgentToolResult {
                content: vec![text_block(&format!("{expression} = {value}"))],
                details: None,
            })
        }),
    };
    (tool(1, "calculate", schema), run)
}

#[test]
fn continue_from_tool_result_produces_final_assistant_answer() {
    let model = test_model();
    let (definition, _) = calculator();
    let mut agent = agent_with(None, vec![definition]);
    let mut asking =
        assistant_with_tool_calls(&model, vec![call("calc-1", "calculate", r#"{"expression":"5 + 3"}"#)]);
    asking.content.insert(0, text_block("Let me calculate that."));
    agent.set_messages(vec![
        user_message("What is 5 + 3?"),
        AgentMessage::Assistant(asking),
        AgentMessage::ToolResult(ToolResultMessage {
            tool_call_id: "calc-1".into(),
            tool_name: "calculate".into(),
            content: vec![text_block("5 + 3 = 8")],
            details: None,
            is_error: false,
            timestamp: 0,
        }),
    ]);
    let mut w = world(stream_done_only(assistant_text("The answer is 8.", &model)));
    let started = agent.continue_run();
    assert!(drive(&mut agent, started, &mut w, &mut |_, _| ()).is_ok());
    assert!(!agent.is_streaming());
    assert_eq!(agent.state().messages.len(), 4);
    assert!(block_text(&last_assistant(&agent).content[0]).contains('8'));
}

#[test]
fn pending_tool_calls_tracks_active_execution_then_clears() {
    let model = test_model();
    let (definition, run) = calculator();
    let mut agent = agent_with(None, vec![definition]);
    let mut w = world(stream_two_rounds(
        assistant_with_tool_calls(
            &model,
            vec![call("calc-1", "calculate", r#"{"expression":"123 * 456"}"#)],
        ),
        assistant_text("The result is 56088.", &model),
    ));
    w.tools.insert(1, run);
    let started = agent.prompt_text("Calculate 123 * 456 using the calculator tool.", None);
    let mut snapshots: Vec<(&str, Vec<String>)> = vec![];
    let ended = drive(&mut agent, started, &mut w, &mut |event, agent| match event {
        AgentEvent::ToolExecutionStart { .. } => {
            snapshots.push(("tool_execution_start", agent.pending_tool_calls()))
        }
        AgentEvent::ToolExecutionEnd { .. } => {
            snapshots.push(("tool_execution_end", agent.pending_tool_calls()))
        }
        _ => (),
    });
    assert!(ended.is_ok());
    assert_eq!(
        snapshots,
        vec![
            ("tool_execution_start", vec!["calc-1".to_string()]),
            ("tool_execution_end", vec![]),
        ]
    );
    let state = agent.state();
    assert_eq!(state.messages.len(), 4);
    let result = state.messages.iter().find_map(|m| m.as_tool_result()).expect("tool result");
    assert_eq!(block_text(&result.content[0]), "123 * 456 = 56088");
    assert!(block_text(&last_assistant(&agent).content[0]).contains("56088"));
    assert!(state.pending_tool_calls.is_empty());
    assert_eq!(started_ids(&w.events), ended_ids(&w.events));
}

#[test]
fn abort_during_streaming_sets_aborted_terminal_assistant_state() {
    let model = test_model();
    let start = assistant_text("", &model);
    let one = assistant_text("one", &model);
    let mut agent = agent_with(None, vec![]);
    let mut w = world(Box::new(move |_, _, _| {
        Ok(vec![
            Item::Event(StreamEvent::Start { partial: start.clone() }),
            Item::Event(StreamEvent::TextDelta {
                content_index: 0,
                delta: "one ".into(),
                partial: one.clone(),
            }),
            Item::Cancel,
        ])
    }));
    let ended = prompt(&mut agent, "Count slowly from 1 to 20.", &mut w);
    assert!(matches!(ended, Err(AgentError::Aborted)));
    assert!(!agent.is_streaming());
    assert_eq!(agent.state().messages.len(), 2);
    assert_eq!(event_types(&w.events).last(), Some(&"run_aborted"));
    let last = last_assistant(&agent);
    assert_eq!(last.stop_reason, StopReason::Aborted);
    assert_eq!(last.error_message.as_deref(), Some("Aborted"));
    assert_eq!(agent.state().error_message, last.error_message);
}

#[test]
fn sequential_listener_abort_on_tool_start_prevents_current_tool_execution() {
    let model = test_model();
    let executed = Rc::new(RefCell::new(vec![]));
    let mut agent = Agent::new(
        AgentOptions::builder(HookId { id: 100 })
            .initial_state(initial(test_model(), None, vec![tool(1, "echo", echo_schema())]))
            .tool_execution(ToolExecutionMode::Sequential)
            .build(),
    );
    let mut w = world(stream_two_rounds(
        assistant_with_tool_calls(&model, vec![call("tool-1", "echo", r#"{"value":"first"}"#)]),
        assistant_text("done", &model),
    ));
    w.tools.insert(1, echo_tool(executed.clone()));
    let started = agent.prompt_text("start", None);
    let ended = drive(&mut agent, started, &mut w, &mut |event, agent| {
        if matches!(event, AgentEvent::ToolExecutionStart { .. }) {
            agent.abort();
        }
    });
    assert!(matches!(ended, Err(AgentError::Aborted)));
    assert!(executed.borrow().is_empty(), "tool should not execute after listener-triggered abort");
    assert_eq!(started_ids(&w.events), vec!["tool-1"]);
    assert_eq!(ended_ids(&w.events), vec!["tool-1"]);
    assert!(matches!(w.events.last(), Some(AgentEvent::RunAborted { .. })));
}

#[test]
fn transcript_after_a_run_is_the_one_before_and_the_reported_messages() {
    let model = test_model();
    let mut agent = agent_with(Some(vec![user_message("old")]), vec![]);
    let mut w = world(stream_done_only(assistant_text("new answer", &model)));
    assert!(prompt(&mut agent, "new", &mut w).is_ok());
    let reported = match w.events.last() {
        Some(AgentEvent::RunCompleted { messages }) => messages.len(),
        _ => panic!("expected completion"),
    };
    assert_eq!(agent.state().messages.len(), 1 + reported);
}

#[test]
fn outcomes_become_results() {
    assert!(outcome_to_result(RunOutcome::Completed { new_messages: vec![] }).is_ok());
    assert!(matches!(
        outcome_to_result(RunOutcome::Aborted { new_messages: vec![] }),
        Err(AgentError::Aborted)
    ));
    assert!(matches!(
        outcome_to_result(RunOutcome::Failed {
            new_messages: vec![],
            error: AgentError::JoinError("x".into())
        }),
        Err(AgentError::JoinError(text)) if text == "x"
    ));
}
