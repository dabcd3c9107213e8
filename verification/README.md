# dirplayer_mcp

Debugger queries over the state of a Director movie player: scripts and
their handlers, the call stack and its variables, globals, datums, cast
libraries and members, bitmap members rendered to PNG, and film loops
resolved frame by frame. Each query is a function from the player state to
an answer (or an error message), verified with Verus against a contract that
states the answer exactly; the PNG file a bitmap renders to is named as the
`image` crate's encoding of its pixels rather than spelled out.

Layout:

- `src/model.rs`: the player state the queries read, as plain data.
- `src/response.rs`: the answers, each with a deep view the contracts use.
- `src/scripts.rs`, `src/player.rs`, `src/casts.rs`, `src/picture.rs`,
  `src/filmloop.rs`: the queries, grouped by subject.
- `src/datum.rs`, `src/text.rs`, `src/lookup.rs`, `src/sort.rs`,
  `src/messages.rs`, `src/datum_map.rs`: shared pieces (datum short forms,
  number and text formatting, table lookups, a verified stable sort, error
  texts, `fxhash` maps).
- `src/checks.rs`: executable tests of the conditions a few queries need.
- `src/laws.rs`: properties that relate queries to each other, proved.
- `app/`: JSON serialisation of the answers with `serde`, as the MCP server
  sends them.
- `tests/`: tests on concrete player states.
