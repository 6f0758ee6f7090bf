# valo

Controls the screen and keyboard backlights of a GNU/Linux machine
(`valo <screen|keyboard> get|get-percentage|set|set-percentage|up|down|max|off|breathing-light`).

- `src/` is the verified library:
  - `backlight_controller/value_file.rs`: the value-file format (trimmed
    decimal text), its parser and printer, and the proof that a written value
    reads back unchanged;
  - `backlight_controller/mod.rs`: the device state, the brightness actions
    and their laws, and the `Backlight` trait;
  - `backlight_controller/keyboard.rs`, `screen.rs`: the two kinds of
    backlight, with the choice of the screen controller;
  - `backlight_controller/breathing.rs`: the breathing-light cycle as a step
    function;
  - `cmd.rs`, `error.rs`: the commands, what each asks of a backlight, and
    the errors.
- `app/` is the program: command-line parsing, file and directory access,
  signals, timing, and the percentage computation in floating point.
