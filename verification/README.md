# openclaw_weil

An agent applet for a smart-contract chain: conversations, scheduled tasks, a registry of agents,
per-caller memory, workflows and pipelines.

- `src/` is the library, verified with Verus. It holds the state, every change that a mutation can
  make to it, the preparation of each call to the outside and the reading of each reply. `laws.rs`
  and `changes.rs` state what holds across operations; a law about one module alone stands in it.
- `tests/` runs the library on concrete values.
- `app/` is the contract itself: it reads and writes chain storage, asks the chain for the caller and
  the time, and makes the agent and HTTP calls. It needs the chain's own crates, `weil_rs`,
  `weil_macros` and `w_cerebrum`. The default configuration and the tool schema are given by whoever
  deploys the contract.

The library trusts one outside function, `serde_json::to_string` on a text (`src/json.rs`).
