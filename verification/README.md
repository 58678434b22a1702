# wayclick-input

The input engine of a minimal autoclicker for Linux/Wayland, verified with
Verus. It writes input events to virtual devices over `/dev/uinput` and
reaches absolute screen positions on KWin by a closed loop over the true
cursor position.

- `src/` — the verified library: the click loop's decisions (`engine`), the
  jitter generator, pacing, the event encodings of the virtual mouse,
  keyboard and tablet (`event`, `mouse`, `keyboard`, `tablet`), the hold
  action (`hold`), the positioning loop (`positioner`), the cursor-read
  protocol (`cursor`), and the desktop shell's decisions (`shell`,
  `desktop`, `rel_probe`, `libei`, `text`).
- `app/` — the I/O around it: uinput devices, the KWin D-Bus cursor reader,
  the loops that perform what the library decides, system commands, the
  global-shortcut portal listener and the probe programs.
- `tests/` — tests run against the compiled library.
