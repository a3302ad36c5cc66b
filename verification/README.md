# ReAct coordinator, verified

A coordinator for the reasoning-and-acting loop of a chat model: think, call
tools, observe their results, repeat until the model answers without a tool
call or the step limit is reached. Every function of the library carries a
contract that is proved.

- `src/step.rs` — a step (thought, actions, observations, final flag) and its builders.
- `src/message.rs` — chat messages, tool calls, and the `ChatHistory` trait with its
  implementation for `Vec<ChatMessage>`.
- `src/options.rs` — request settings: model options, answer format, keep-alive, tool descriptions.
- `src/error.rs` — the errors of a run.
- `src/coordinator.rs` — the coordinator: `start`, and the step protocol
  `begin_step` → `request` → `record_response` → (`next_call` → `record_tool_output`)* →
  `next_call` gives the finished step, each specified over `CoordinatorView`.
- `src/laws.rs` — properties of whole runs: starting is idempotent, the step budget,
  step numbering, what a completed step holds, what any sequence of calls does to the
  conversation, the step count and the started flag, and what collecting steps yields.
- `app/lib.rs` — an async runner that awaits the model server and the tools and feeds
  their answers to the coordinator.
