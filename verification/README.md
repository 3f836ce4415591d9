# terax

The Android terminal backend of the Terax app, with its logic verified by Verus.

- `src/` is the verified library (`terax`):
  - `paths` – the runtime's file layout and Unix path joining;
  - `pty` – what a terminal session launches, and the session registry
    (ids, lookups for write and resize, close);
  - `pty_pair` – the decisions of the POSIX pseudo-terminal opening sequence;
  - `output` – the bounded pending buffer, the flusher and the exit report;
  - `bootstrap` – the decisions of the first-run extraction of proot and Alpine;
  - `settings` – the page and tab of the desktop settings window;
  - `text` – message building and decimal formatting.
- `app/` is the Tauri application around it: the system calls, threads,
  file-system work and window management, driven by the library's decisions.
- `tests/` runs the library on concrete inputs.
