# grapevine

The decision-making core of the GrapeVine Wine game launcher, verified with
Verus, and a thin terminal program around it.

- `src/` — the verified library:
  - `text` — character-level string helpers (search, trimming, Unix path
    joining, file extensions) with their mathematical meaning;
  - `downloader` — reading aria2 progress lines, aria2's command line;
  - `installer` — archive extraction and silent-installer commands, choosing
    a game's main executable among those found in a prefix;
  - `orchestrator` — game configurations, runner detection, the directory
    layout, updates of the stored library;
  - `launch` — launching a game as a state machine: each step takes what the
    outside world reported and says what to do next (download, inspect,
    unpack, scan, prepare, spawn, poll, finish), counting play time;
  - `parser` — version information from the native PE reader's output;
  - `plugins` — games reported by Lua plugins, plugin permissions, the shared
    string cache;
  - `tui` — the launcher screen's state and key handling.
- `app/` — the program: terminal drawing (ratatui/crossterm), the Lua
  sandbox (mlua, reqwest), files, processes and JSON (serde).
- `tests/` — tests of the library on concrete values.
