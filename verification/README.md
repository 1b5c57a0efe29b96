# rlirsh

Rootless insecure remote shell: a server that runs commands for whoever connects to it, and a
client that stands in for the terminal of a command that runs elsewhere. Nothing is encrypted and
nobody is asked who they are; it is for networks in which that does not matter.

- `src/` is the library, verified with Verus: the messages and their framing, the two ends of a
  stream, the routes between them, the forwarding of ports, the raw mode of the terminal, and what
  the client and the server decide. It does no input or output. Where something has to be waited
  for, a state machine takes the event and says what to do next.
- `app/` is the program: it performs what the library asks for, and hands back what came of it.
- `tests/` runs the library.

What the library takes on trust of other crates stands in `src/error.rs` (error reports),
`src/terminal/attributes.rs` (the raw form of a terminal's attributes) and `src/parse.rs` (how a
list of strings is shown).
