# cu

A runtime through which an agent sees and drives a Linux desktop: it observes
frames, plays batches of input against the frame that was looked at, waits for
regions to change, and serves all of that over a socket and as MCP tools.

`src/` is the verified library. It holds the decisions as plain functions and
state machines with contracts, but for those that are floating-point arithmetic:

- `protocol`, `validate`, `engine`, `engine_laws`: requests, their validity, and
  the engine that turns an event into the next operation.
- `frame`, `intervals`, `watch`, `wait`: frames, watched regions and the
  detection of changes.
- `store`: where frames are kept, and who may remove them.
- `input`, `keys`, `chord`, `pointer`: batches of input, key names and pointer
  arithmetic.
- `x11`, `keymap`, `x11_session`, `x11_keyboard`, `niri`, `backend`: what each
  display server is asked to do, in which order, and what is given back
  afterwards.
- `path`, `instance`, `command`, `daemon`, `desktop`: instances, command lines,
  the daemon's life and the desktop it is told to drive.
- `session`, `replies`, `tools`, `signal`, `waits`: one agent's session, the
  tools it calls and the waits it leaves running.
- `text`: strings, and decimals written into them.

Each state machine says which operation comes next; `app/` performs it and hands
back what happened. `app/` also holds the wire formats and the command line.
Functions whose bodies are calls into other crates are marked
`#[verifier::external_body]`, and their doc comments say what is believed of
those calls.

Laws that span several functions are public proof functions next to the
functions they speak of.
