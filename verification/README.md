# semantic_editor

A toy terminal editor whose core is verified with Verus.

- `src/` is the verified library: key-press decoding and its text form
  (`key`), the drawing model that turns fills and text into painted cells
  (`ui`), widget weights and child rectangles (`widget`), raw-mode terminal
  settings, window sizes and events (`term`), build facts, version, user
  agent and help text (`build_info`), and the update bookkeeping with the
  MD5 fingerprint of the running program (`update`). `text` holds the
  character, decimal and hexadecimal helpers they share.
- `app/` is the program around it: command line, logging, the terminal
  itself (raw mode, signals, the event loop), painting cells with rustbox,
  the floating-point layout of widget trees, and the HTTP update.
- `tests/` exercises the library on concrete values.
