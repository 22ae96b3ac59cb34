# bobo-ro-ctd

A screen-watching countdown timer. A background watcher captures the primary
display, counts red, roughly square blocks and, when there are more than a
threshold, the window runs a countdown with optional spoken reminders.

- `src/` is the verified library (Verus):
  - `config.rs`: the settings and their defaults;
  - `vision/util.rs`: which connected components are blocks, how many there
    are, the height frames are scaled to, file-name cleaning;
  - `vision/task.rs`: one round of the watcher;
  - `ui/state.rs`: the window's state machine (settings editing, saving
    policy, worker start/stop, countdown ticks, reminders);
  - `ui/voice.rs`: decimal numerals and the reminder sound paths;
  - `ui/console.rs`: the console window that follows the debug switch;
  - `ui/laws.rs`: properties that hold across the window's operations.
- `app/` is the program around it: egui window, threads, clocks, screen
  capture, OpenCV image filtering, sound, and the TOML settings file.
- `tests/` exercise the library.
