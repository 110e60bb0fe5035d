# bridge_opencode

Bridge between opencode and Neovim: protects buffers with unsaved changes, reloads
buffers that were changed on disk, and passes visual selections on as chat context.

- `src/` is the library, verified with Verus: the Lua snippets sent to Neovim
  (`action/neovim/lua.rs`), the search for a file among Neovim's buffers and the
  reading of Neovim's answers (`action/neovim/buffer.rs`), how the answers of several
  Neovim instances are merged (`action/neovim.rs`), the connection decision
  (`handler.rs`) and the hook protocol (`hook.rs`): routing a hook, deciding to guard
  or reload the file a tool writes, and denying an edit of a file with unsaved changes.
- `app/` is the `bridge` program: socket discovery, the RPC sessions with Neovim,
  JSON reading and writing of hook values, and the command line.
- `tests/` runs the library on concrete values.
