# agent_tools

Tools and a channel for an AI agent, with their behaviour stated in contracts and
proved by Verus.

- `src/channels`: the AgentPhone channel. Webhook signatures, inbound events and
  the messages made of them, outbound sessions, and the steps of sending an SMS.
- `src/tools`: the AgentPhone, X, budget and issue-tracker tools. Each call is a
  machine: a function from arguments and answers to the next request, question or
  result. `budget/ynab.rs` and `issue_tracker/beads.rs` are the providers.
- `src/json.rs`, `src/json_text.rs`, `src/text.rs`, `src/http.rs`,
  `src/signature.rs`, `src/clock.rs`, `src/config.rs`: what they are built on.
- `app`: HTTP, child processes, the security policy and memory, in ordinary Rust.
- `tests`: the library from outside.

Public proof functions whose names begin with `law_` state what holds of several
functions together. Functions that read the clock have a twin whose name ends in
`_at` and that takes the time as an argument.
