# touchhle

The rules behind a game that runs in an emulator, as a verified library: which
messages of the game are answered, changed or left alone, how its offline
island is set up and saved, how it logs in at a server of one's own, and how
the host's events become the events of the emulated device.

## Layout

- `src/` is the library. Every item is checked by Verus.
  - `hooks/` decides what becomes of a message. Where it has to know or do
    something in the game, it asks for a task and goes on at a stage once the
    task was done. `machine` is the chain as a whole; `cheat_arms`,
    `island_arms` and `online_arms` are its parts.
  - `island/` holds the layout of the island, its save files and their
    protection, and a stay from entering to leaving.
  - `online/` holds settings, the steps of the login, the requests of the
    account menu and the display of the connection.
  - `window/` holds the device's screen and its sizes, the queue of events, the
    translation of the host's events, the pinch made with the wheel, and the
    time in the background.
  - `rounding` holds single and double precision in whole numbers, for the
    sizes and moments that are computed with them.
  - `cheats`, `patches`, `farm`, `ui43`, `watchdog`, `cf_time`, `names` and
    `text` are the smaller parts.
- `tests/` runs the library on concrete values.
- `app/` is the emulator's side: SDL's window, the objects, memory and files of
  the emulated program, the network, and the floating-point arithmetic of
  points, angles and moments.

## What is taken on trust

Two functions of the standard library: `String::push`, and
`String::from_utf8_lossy`, whose result is named and not described.
