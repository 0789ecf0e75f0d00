# onshape-mcp

The core of a Model Context Protocol server for Onshape, written in Rust and verified with Verus.

The server lets MCP clients act for Onshape users. Over HTTP it is an OAuth authorization server of
its own: clients register, users authorize with their Onshape accounts, and the clients get tokens
for the MCP endpoint. The state can be kept in an encrypted file, so that it survives a restart.

## Layout

- `src/` is the library. Verus checks every function in it against its contract, but for the calls
  into other crates.
  - `registration`, `authorization`, `callback`, `token`, `middleware`: what the endpoints decide.
  - `state`, `records`, `credentials`, `table`: what the server keeps.
  - `persistence`, `store`: what survives a restart, and the format of the encrypted file.
  - `refresh`: the refresh of a user's Onshape tokens.
  - `endpoints`, `url`, `errors`, `encoding`, `hex`, `text`, `time`: paths, URLs, errors and the like.
  - `config`, `duration`, `cli`: the configuration and the command line.
  - `laws`: what holds of the server as a whole.
  - `outside`: the calls into other crates, whose contracts are believed.
- `tests/` runs the library.
- `app/` is the program around it: command line, files, HTTP.

The handlers of the library take the state by mutable reference and return the answer. Where
Onshape has to be asked or the state has to be saved in between, they come in steps, and the caller
hands over what came of it.
