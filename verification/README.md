# ime_cursor_indicator

An IME mode indicator for X11 + IBus: while Japanese input is on, a small
overlay showing `あ` follows the text caret (or the mouse pointer); during
direct input the overlay is hidden and the tray icon shows `A`.

- `src/` is the verified library (Verus): label decisions (`label`), text
  helpers (`text`), the configuration model and its layering (`config_value`,
  `config`), what is read from the IBus bus (`ibus`), caret tracking from
  eavesdropped bus messages (`caret`) and the overlay's state machine
  (`overlay`).
- `app/` is the program around it: command line, configuration file, GTK
  window and drawing, the D-Bus connection and the tray icon.
- `tests/` runs the library on concrete values.
