# cauldron

The core of the Cauldron plugin loader for Decima-engine games, written in
Verus. What the loader decides on plain values is in `src/` and carries a
contract that Verus proves. Left to `app/` are the loops that walk raw
process memory: the candidate-by-candidate search of the data section for
type descriptors, and the reading of each descriptor's fields.

- `plugins`: load order of plugins by their dependencies, cycle reporting,
  and version and dependency validation (`CauldronLoader::sort_and_validate_plugins`);
  `versioning` wraps the `semver` crate.
- `metadata`, `config`, `version`: plugin metadata, configuration defaults,
  log levels, game identification and version numbers.
- `mem`, `pe`, `offsets`, `region`: byte-pattern signatures, PE sections of
  the game image, the registry of named offsets, instruction-relative
  addresses, and how much of a run of memory can be read.
- `rtti`: names and discovery of the game's run-time type records.
- `input`, `ui`, `init_context`, `texture`, `outparam`: window-message
  translation, overlay state, renderer set-up bookkeeping and texture upload
  arithmetic.
- `draw`: which interface meshes are drawn, and their offsets in the shared
  index and vertex buffers.
- `host`, `summary`, `text`: which files are plugins, the start-up table of
  loaded plugins, and small string helpers.

`app/` is the host side: it reads files and process memory, loads plugin
libraries, parses TOML, logs and shows message boxes, and hands plain values
to the library.

`tests/` runs the library on concrete inputs.
