# nasty-retropixel-cli

The review logic of the nasty-retropixel command line, verified with Verus.

- `src/` is the library: reading the command line into processing settings
  (`cli`), the named presets and mode labels (`modes`), the batch quality
  summary and its recommendations, read from each debug report's bytes
  (`summary`, `report`, with `serde_json` doing the parse), the retry plans tried
  on the worst rows and the choice among their outcomes (`plans`, `retry`),
  file names (`paths`) and CSV output (`csv`, `tables`), on top of small
  character-level helpers (`text`).
- `app/` is the program around it: argument collection, file and directory
  I/O, JSON writing, calls into the image engine, and the few
  steps that need floating point (fractional quality figures, their sorting,
  averages and four-decimal formatting).
- `tests/` exercises the library on concrete inputs.
