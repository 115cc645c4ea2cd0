# whitebox_runner

The tool dialog of the WhiteboxTools runner, as a verified library.

- `src/json.rs`: the JSON value a tool describes its parameters in, and its lookups.
- `src/text.rs`, `src/numeric.rs`: trimming, splitting, and which strings parse as a
  `usize` or an `f32`.
- `src/parameter.rs`: tool parameters, how they are read from the description, the
  argument each contributes to a run, and how the dialog labels them.
- `src/tool.rs`: a tool with its settings, the command line of a run, and the state of a
  run as the dialog shows it.
- `src/dialog.rs`: the filters of the file dialogs.
- `src/laws.rs`: properties across these operations.
- `app/`: the egui window, the native dialogs, the file-system checks and the process
  that runs a tool.
