# utah-core

The verified core of the Utah desktop shell, a native window that hosts a
React/Vite web UI and serves its native requests (files, SQLite, OS keyring,
clipboard, notifications, dialogs, self-update).

- `src/` — the library, verified with Verus:
  - `text` — decimal rendering, Unicode-whitespace trimming, `u16` parsing, substring search;
  - `probe` — when an HTTP reply comes from Vite, the port scan, the dev-server URL;
  - `resolve` — the dev-server search as a state machine (port file, `UTAH_VITE_PORT`, scan, fallback);
  - `icon` — the tray icon bitmap;
  - `ipc` — routing of page messages, worker tasks and their answers;
  - `bridge` — the script that hands answers back to the page (JSON string literals);
  - `update` — the self-updater's release source;
  - `shell` — decisions of the window event loop.
- `app/` — the program around it: window, web view, tray, TCP probes, the worker thread.
- `tests/` — tests of the library.
