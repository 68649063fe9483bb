# oh_my_agentloop

A generic, stateful loop for LLM agents: prompts, streamed model answers, tool calls, steering and
follow-up messages, cancellation. Its decisions are verified with Verus.

## Layout

- `src/` is the verified library. It decides and never waits: a run is a state machine
  (`AgentLoop`) that hands out events and one request at a time, and takes the answer to go on.
  - `types/`: messages, content, models, tools, events, errors.
  - `agent_loop/`: runs. `protocol` is what a run asks and is answered, `state` where it can
    stand, `turn`, `stream_response` and `tool_calls` how it moves, `step` ties these together.
    `history`, `laws`, `completeness`, `nesting` and `prompting` prove what holds of whole runs.
  - `agent/`: the stateful agent with its queues, listeners and settings.
  - `validate`: checking tool arguments against JSON Schemas.
  - `json`, `cancellation`, `clock`, `text`: values of other crates, and small helpers.
- `app/` is the asynchronous runtime around it: it awaits callbacks, model streams and tools,
  delivers events, and holds the JSON shapes of messages.
- `tests/` drives the library with scripted surroundings.

## What is proved

Each function states exactly what it returns or changes, but for what rests on its surroundings:
the time that the clock reads, whether a cancellation signal was given, and the text of the
complaint about a JSON Schema that does not compile. What follows from these is exact for every
value of them. Over every sequence of answers that a driver can give:

- a run starts once and ends with exactly one terminal event;
- it reports exactly the messages that it completed, also where it fails, and a failure is told of
  by its last message;
- tool results answer the calls of the model's message in order;
- turns nest;
- a run on prompts does what a run does that continues from a transcript with these prompts;
- follow-up messages are polled only where the run would stop, and nothing starts once
  cancellation is seen;
- what a run leaves in an agent's state follows from its events.

Some laws hold but for one case. Every announced tool call is closed, unless the task of a tool
execution breaks; then the calls that could run have no result from the broken one on. Messages
nest, and the context holds what the run added, unless a stream starts a second message while one
is under way, or breaks off there.

JSON values, cancellation tokens, the clock and JSON Schema validation come from other crates and
from the standard library. What is taken on trust of them stands in `json`, `cancellation`,
`clock` and `validate`.
