# statusbar

A vertical status bar for the Hyprland compositor: a dock with one button per
client window, a clock and a headset battery level.

- `src/` is the verified library (Verus):
  - `clock` formats a reading of the local clock as `HH:MM:SS`;
  - `paths` extends a path as `PathBuf::push` does on Unix;
  - `lookup` finds the icon of a running program through the desktop entries,
    as a sequence of steps whose file reads and link lookups the caller does;
  - `dock` finds clients by address and decides where a click on a button
    moves its window;
  - `registry` keeps the dock's buttons by window address.
- `app/main.rs` is the program around it: GTK widgets, layer shell, Hyprland
  data and events, process names from sysinfo, the battery level over D-Bus,
  the local clock through chrono,
  and the file system.
- `tests/` runs the library on concrete values.
