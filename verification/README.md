# velo

The editing core of the velo text editor, written in Verus.

- `src/` is the verified library: positions and ranges, the rope-backed
  buffer and its line model (`text.rs`), the editor state and its buffer
  list, the commands with undo, the major-mode registry, configuration
  defaults, the plugin registry, and the key-handling decisions of the
  terminal and application front ends. Calls into `ropey` and
  `tree-sitter` go through the trusted wrappers in `rope.rs` and
  `syntax.rs`.
- `app/` is the program around it: the tokio event loop, the crossterm and
  ratatui terminal front end, file reads and writes, and loading plugin
  libraries with `libloading`.
- `tests/` runs the library against concrete inputs.
