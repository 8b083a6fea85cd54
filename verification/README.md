# codex_supervisor

A supervisor for the Codex processes of one machine, and the terminal surfaces that show what it
knows.

- `src/` is the library, verified with Verus. It holds the rules: who may register and who is
  terminated, what a worker reports and how a page of it fits into a frame, how the transcript is
  laid out again after a resize, which surface has the alternate screen, what the dashboard shows.
- `app/` is the program around it: sockets and pipes, processes, the clock of the event loop, JSON
  and the terminal.
- `tests/` runs the library with the crates it calls.

The supervisor core is in `registry`, `query`, `daemon`, `client`, `worker`, `reporter`, `pages`,
`session` and `transport`. The terminal surfaces are in `reflow`, `sidebar`, `surfaces`, `prompt`,
`dashboard` and their neighbours. Proof functions whose names begin with `law_` state what holds of
several functions together.

Calls into other crates and into parts of the standard library that Verus does not know stand behind
functions marked `external_body` or behind `assume_specification`, each with a comment that says what
is taken for granted.
