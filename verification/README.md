# cox_runtime

The runtime core of the Cox desktop sidecar, verified with Verus.

The sidecar speaks JSON-RPC 2.0 over stdio, with LSP-style
`Content-Length` framing. The library (`src/`) holds the logic, each
function with a contract that Verus proves:

- `framing`: reading and writing framed messages; reading a written frame
  gives the body back (`lemma_frame_round_trip`, `lemma_back_to_back`).
- `rpc`, `dispatch`: message types and request routing: lifecycle methods
  are answered, feature methods are checked for their parameters and turned
  into commands.
- `project`, `threads`, `runner`, `terminal`: what opening a project,
  creating, renaming and archiving threads, running an agent and managing
  terminal sessions decide.
- `git`, `worktree`: reading the output of `git diff --numstat`,
  `git diff --name-status`, `git worktree list --porcelain` and friends.
- `text`, `ids`, `models`: text utilities, identifiers, timestamps and the
  shared records.

`app/` is the program around it: stdio, SQLite storage, PTYs, processes,
threads and the JSON encoding of the records.
