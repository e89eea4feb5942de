# OwnPager

OwnPager takes queries from a CLI, a Telegram webhook and a browser API,
prepares each as a turn (normalized text, session key, workspace hint), and
runs the turn as an agent: a request-scoped ThinkingRoot branch, a compiled
capsule, an optional ThinkingRoot flow, a tool loop with the OpenAI Responses
API and a local terminal, and finally the knowledge the turn captured, stored
and merged back.

## Layout

- `src/` is the verified library. Every function carries a contract that
  Verus proves.
  - `text`, `json`, `numbers`: characters, JSON values and decimal and UUID
    text, with their specifications.
  - `intake`, `session`, `cli_intake`, `web_intake`, `telegram`,
    `thinkingroot_boundary`: turning a channel's message into a prepared turn.
  - `config`: the runtime configuration, read from a list of environment
    entries.
  - `openai_responses`: reading a Responses API reply.
  - `agent_runner`: flow selection, instructions, answers, branch names, the
    tool plan and how a tool call is dispatched.
  - `agent_turn`: one agent turn as a state machine. Each method takes the
    outcome of the last action and returns the next one.
  - `terminal`: which commands and directories the terminal tool accepts and
    how a run becomes a result.
  - `thinkingroot_http`, `thinkingroot_sdk`: classifying a preparation, the
    identity a turn runs under and the SDK bridge envelope.
  - `external`: the few calls into `uuid`, `chrono` and std whose contracts
    are trusted.
  - `laws`: properties that span several functions.
- `app/` is the program around it: argument parsing, HTTP servers, the Node
  bridge process, the OpenAI client, the shell, and the loop that performs
  the actions of an agent turn.
- `tests/` runs the library on concrete inputs.
