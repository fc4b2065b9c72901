# mewcode_client

The terminal client of mewcode: a session list, a new-session form, a chat
screen that streams the assistant's reply, and a Workspace that puts an
architecture canvas next to the chat.

The client is an Elm-style program. Its model, the `update` function that
takes the model and a message to the next model and a command, and the text
that each screen shows are written in Verus and proved against their
contracts. The program around them performs the commands.

## Layout

- `src/` — the verified library.
  - `protocol.rs`: roles, modes, the model catalog, JSON values, messages,
    chat requests and stream events.
  - `canvas.rs`: the canvas graph, where each node is placed, hit-testing
    and directional navigation.
  - `net.rs`, `config.rs`, `memory.rs`: the server's payloads, status and
    error decisions, configuration defaults, and the memory document.
  - `text.rs`, `sort.rs`: text helpers (trimming, words, lines) and sorting.
  - `runtime/model`: the screens' state, messages and commands; the text
    editor is `tui-textarea` behind a small trusted interface.
  - `runtime/update`: `update` and its per-screen handlers.
  - `runtime/view`: what each screen shows — transcript rows, status lines,
    form fields, node cards, edge glyphs, cursor placement.
  - `runtime/laws.rs`: properties that span several calls, stated and proved.
- `app/` — the `mewcode` binary: command line, configuration loading, the
  HTTP and event-stream client, the terminal event loop, and drawing with
  ratatui.
- `tests/` — tests of the library.
