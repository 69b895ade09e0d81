# layer_shell_io

The I/O layer of a desktop bar, verified with Verus: the wire formats of the
monitors it reads (network, PipeWire, weather, tray), the D-Bus conversations
of the system tray (watcher, host, applications, menus), the network and
sound modules' state machines, and the keyboard layout reported by Niri.

- `src/` is the verified library. Every decision is a function from state
  and event to next state and requests, with a contract over spec models.
  Where an outside crate reads JSON (`jzon`, `serde_json`), its result is
  named by an uninterpreted spec function over the input text, and the
  contracts are stated over those names; UTF-8 decoding through `core::str`
  is stated directly over `valid_utf8`.
- `app/` holds the sockets, timers and clocks around it, and the volume
  arithmetic on floating point.
- `tests/` runs the library on concrete frames and messages.
