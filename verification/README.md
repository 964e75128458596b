# whisper_manager

A desktop helper (Tauri) that installs, builds, updates and runs a local
whisper.cpp speech-to-text server. The decisions are a Verus-verified library;
the Tauri commands that touch the disk, processes and the front end are a thin
shell around it.

- `src/` — the verified library
  - `pathenv`: the search path with the common tool locations first, each entry once
  - `layout`, `commands`: where the checkout, binary and models live; the commands run
  - `job`, `plans`: the install and update as jobs, and the runner that says which
    command runs next and which progress to report
  - `state`: one install and one server at a time
  - `server`, `deps`, `updater`, `messages`, `payloads`, `text`: server start checks and
    output handling, tool probes, update notices, error texts, payloads, decimal text
- `app/` — the Tauri commands and `run`
- `tests/` — tests of the library
