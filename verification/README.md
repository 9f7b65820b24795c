# meetily

The meeting-folder naming and live-summary logic of a meeting recorder, as a
Verus-verified library.

- `src/` is the verified library:
  - `text` — Unicode white space and control codes, trimming, decimal digits;
  - `meeting_folder` — `sanitize_component`, `build_folder_name`, the folder
    configuration and the plan of a new meeting folder;
  - `unique_name` — the `_2`, `_3`, … search for a free folder name;
  - `rename` — the decisions of renaming a folder in place;
  - `live_summary` — prompts of the live rolling summary, its local-only
    gate, and the handling of the model's reply and "nothing new" marker;
  - `summary` — summary language preference, folder resolution and export
    folder, request defaults and process id;
  - `summary_status` — the summary status and parsed result of a meeting;
  - `clock` — the current time, formatted by `chrono`.
- `app/` holds the file-system side (creating, uniquifying and renaming folders
  on disk) and the serde forms of the summary types.
- `tests/` runs the library on concrete values.
