# sabi-agent

A small coding-agent harness: a terminal program that talks to an
OpenAI-compatible chat-completions provider and lets the model read, write and
edit files, run shell commands and search, with approvals for risky tools,
JSONL sessions, skills and a system prompt built from the workspace.

The decision logic is a library verified with Verus (`src/`); the program
around it (`app/`) does the input and output.

## Layout

- `src/` — the verified library.
  - `agent.rs` — one agent turn as a state machine: what to record, emit, ask
    and run after each model reply, approval and tool output; the round limit.
  - `approval.rs`, `cli.rs` — the approval policy, approval prompts, event
    rendering and slash-command handling of the terminal.
  - `config.rs`, `onboarding.rs` — paths under `~/.sabi`, key and setting
    precedence, first-launch answers.
  - `session.rs` — what a JSONL session file holds, which sessions belong to a
    directory, which is the latest, how messages load back.
  - `desktop.rs` — the state an embedded frontend keeps: the conversation with
    its system prompt in front, the open session and the skills.
  - `system_prompt.rs`, `skills.rs`, `slash.rs` — the system prompt, `SKILL.md`
    parsing and invocation, slash-command parsing.
  - `llm.rs` — the chat-completions request and reply forms.
  - `tools/` — tool schemas, dispatch and what each tool reports;
    `tools/search.rs` for the Exa searches.
  - `workspace.rs` — the bounded walk behind `@` file suggestions.
  - `text.rs`, `json.rs`, `diff.rs` — text operations with their contracts,
    and the calls into `serde_json` and `similar`.
- `app/` — the program: settings and session files, HTTP calls, processes,
  the interactive loop and onboarding.
- `tests/` — tests of the library.
