# ax

ax lets several coding agents, one per workspace, work on a project together.
This crate holds the logic of its terminal watcher and of its tool server. It is
written in Verus: what each function does is stated in its contract and proved.

- `src/` is the library.
  - `text`, `order`, `keyed`, `time`, `config`: texts, sorting, ordered maps,
    instants and the tree of projects.
  - `proto`: what goes over the daemon's socket.
  - `tmux`: names of sessions and keys.
  - `mcp`: the tools of a workspace: what each asks of the daemon, what it refuses
    and what it answers, the connection to the daemon, memory scopes and the team
    planner.
  - `tui`: the state of the watcher as a step function over `AppModel`, its keys,
    and everything that it shows as lines of styled text. `tui::laws` states what
    holds of all keys and all states.
- `tests/` runs the library on concrete values.
- `app/` is the ordinary Rust around the library: sockets, files, the terminal,
  and the MCP server. What is floating point stays there too.

Calls into `chrono`, `regex` and `serde_json` go through a few functions marked
`external_body`; the comment above each says what is taken on trust.
