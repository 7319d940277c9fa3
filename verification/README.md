# ai-music-mcp

An MCP server that drives local music tools: MusicGen generation, Demucs stem separation and
RVC voice conversion, run as Python scripts of their virtual environments.

`src/` is the library, verified with Verus. It decides everything the server decides: which
configured directories are accepted, which caller paths and file names are accepted (paths are
confined to the allowed directories component by component, for missing files through their
parent), which string arguments are refused for their length or a NUL character, which script
run each tool asks for (with clamped durations and pitch shifts, known model names, the pitch
estimation method, and the run's time budget), whether a run may start, how a finished or
timed-out run is read, and what each tool answers, with error texts redacted. The full
pipeline is a sequence of steps: generation, then Demucs separation of the saved file, then RVC
conversion of the separated vocals when a voice model is asked for.

- `text.rs`: character-level operations (search, prefixes, trimming, removal, lines, joining,
  file names, decimal numbers, `key=value` lines) with their mathematical meaning.
- `args.rs`: the call arguments, the reading of each field and the check of every string
  field; the known model choices.
- `paths.rs`: configured directories, caller paths, plain file names.
- `config.rs`: the directories and scripts derived from the base directories (the RVC one
  optional), required settings, and the time budgets.
- `launch.rs`: script runs, the checks before they start, the reading of their exit.
- `reply.rs`: tool errors and answers, redaction, directory listings, the voice model listing
  with index files.
- `tools.rs`, `pipeline.rs`: the tools, including the metadata reply read from `ffprobe`.
- `laws.rs`: properties that hold of every call.

`app/` is the server around it: environment, file system and process work (with the time
budgets enforced), the JSON conversions, the MCP tool handlers, and the floating-point index
ratio and size figures.
