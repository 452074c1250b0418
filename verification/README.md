# konsoleat

Activates a Konsole terminal session in a working directory. If no session of any Konsole window
works there, the oldest window opens a new one; if there is no window, a new Konsole is launched.
Either way the windows of the Konsole process are then activated by a script that KWin runs once.

`src/` is the library, verified with Verus. It performs no input or output: the program is a state
machine that hands out actions and goes on with the events that tell how they went.

- `program`: the program from start to end.
- `candidate`: which window and which session are preferred.
- `konsole`, `service`, `window`, `session`: what is asked over D-Bus, and how replies are read.
- `activate_windows`: the activation of the windows of a process.
- `dbus`, `text`: method calls, raw replies, integers as text.
- `exchange`: actions, events, and the progress of a computation.
- `outside`: types of other crates that the library carries.
- `history`: what holds of the program after any events.
- `world`: what the program does in surroundings in which nothing fails.

`app/` is the executable: it parses the command line, performs the actions (D-Bus, `/proc`, files,
processes) and reports errors. `tests/` runs the library on concrete replies and events.
