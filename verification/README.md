# awac

A keyboard-driven terminal front end for NetworkManager's `nmcli`: it scans
for Wi-Fi access points, connects through saved profiles or new credentials,
and keeps a rolling console of what happened.

- `src/` is the verified library: the application state machine (`app`), the
  reading and building of `nmcli` text (`nmcli`), what the screen shows
  (`screen`), character-level text handling (`text`), the data that
  background jobs hand back (`network`) and the properties proved across
  transitions (`laws`).
- `app/` is the terminal program around it: terminal setup, drawing with
  ratatui, key input with crossterm, background threads running `nmcli`, and
  the log files.
- `tests/` runs the library on concrete values.
