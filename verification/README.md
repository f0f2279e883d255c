# bext

A command-line tool for building and managing Blender extensions: it reads
`bext.toml`, packs the extension into a ZIP archive, links it into the
extensions directory of each configured Blender version, removes those links,
deletes files that match exclude patterns, and writes a starting `bext.toml`.

The library under `src/` is verified with Verus:

- `text`, `version`, `paths`, `toml_doc`: strings, semantic versions, paths
  held as text, and TOML documents seen through their top-level entries.
- `manifests`: `bext.toml`, `blender_manifest.toml` and `pyproject.toml`,
  read from and written back into their documents; the proof functions
  there show that writing and reading back gives the same values and that
  writing keeps every other entry.
- `ops`: validating the extension, finding files, glob patterns, archive
  entries, Blender's data directories and links.
- `cli`: the arguments, errors and results of the commands, and the choice
  each command makes between its reads and writes.

`app/` is the program around it: argument parsing, the file system, the
process environment, ZIP writing and coloured output.
