# rargo

A client for remote cargo builds (`abrasive`/`rargo`), and crep, the Cargo
Remote Execution Protocol that the client and the build broker speak.

- `src/` is the verified library: the protocol's types and the canonical
  order of a command's environment variables (`crep`, `order`), the errors
  of the client (`errors`), the workspace context (`workspace`, with paths
  read through `std::path` in `paths`), the saved login token (`auth`), the
  command that the client requests (`client`), and the decisions of the
  command line (`commands`).
- `app/` is the program around it: argument parsing, the environment, files,
  processes, and the serde/bincode/toml encodings of the library's types.
- `tests/` runs the library on concrete values.
