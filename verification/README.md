# admin_key

A USB "admin key": a microcontroller that presents itself as a keyboard and a
serial device, and a host tool that finds the key among the serial ports,
checks a value (at most 64 bytes of word characters), maps it to the key's
keyboard layout and sends it to the key, which types it.

- `src/` — the verified library (Verus): validation and layout mapping, the
  serial handshake on both sides, the port search as a state machine, the
  keyboard reports, and the key's flash jobs as a state machine.
- `app/` — the host tool: serial ports (`serial2`), desktop notifications
  (`notify-rust`) and the loop that carries out the port search.
- `tests/` — tests of the library.
