# rdm

A small display manager. The library (`src/`) holds its logic with contracts proved by
Verus; `app/` holds the programs around it (the daemon's event loop, the greeter client
and GTK windows, process and socket handling).

- `src/common`: the IPC frame format (`IpcMessage`, `IpcMessageCodec`) and its errors,
  with the encode/decode laws.
- `src/daemon`: seats, the daemon's answer to a greeter, and the X server's cookie,
  authorization file, command lines and start/stop decisions.
- `src/greeter`: the greeter's handshake with the daemon.
- `src/standalone`: the single-process display manager: its raw greeter protocol, D-Bus
  service decisions, cookie, theme lookup and login decisions.
- `src/support`: byte layout, the `bytes` buffer, text and path handling, randomness.
