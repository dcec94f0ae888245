# precached_gui

The data model and the decisions of precached-GUI, a GTK front end of the
precached daemon, as a library verified with Verus, and the program around it.

- `src/clock.rs`: time stamps (the program reads the clock and hands them in).
- `src/ipc.rs`: the messages of the IPC protocol.
- `src/global_data.rs`: what the GUI knows of the daemon, how each reply
  changes it (`process_message`), and the laws of those changes.
- `src/globals.rs`: that state shared between the GUI and the IPC thread,
  behind a reader-writer lock.
- `src/polling.rs`: the IPC conversation: which request comes next, and which
  reply is kept.
- `src/overview.rs`: the numbered rows that the overview lists show.
- `app/`: the GTK program, the system clock, the ZeroMQ socket and the JSON encoding (serde).
- `tests/`: tests of the library.
