# project_tracker

The core of a desktop project and task tracker, written in Verus: every
function in `src/` carries a contract that Verus proves.

- `src/` — the verified library: the ordered map that holds projects and
  tasks, task sorting, searching and filtering, the markdown reader of task
  descriptions, the source-code to-do search, the Google Tasks import, the
  calendar and date arithmetic, the stopwatch, the preferences, and the state
  machines of the pages, modals and the synchronization connection. Calls
  into outside crates (chrono, pulldown-cmark, url, fuzzy-matcher) stand
  behind small trusted wrappers whose doc comments say what is assumed.
- `tests/` — tests of the library on concrete values.
- `app/` — a command-line program around the library: the preferences file,
  walking source folders, reading a Google Tasks takeout, starting a code
  editor.

Verify with `verus` on `src/lib.rs`; the laws of the library are the public
proof functions named `law_*`.
