# tdjson-runtime

A runtime loader for the TDLib JSON C interface, split in two.

- `src/` is the verified library. It holds the loader's decisions: `process` decides
  which library path a process may bind, what a load leaves behind once the library was
  opened or failed to open, and when a new owner of the process-global JSON
  interface may be created; `owner` keeps the log-callback state of one owner and checks
  requests before they are handed to C; `option_response` reads the `getOption` responses
  and steps through the two queries (version, then commit) that make up a
  `TdLibBuildIdentity`; `laws` states and proves what holds across calls.
- `app/` opens the shared library with `libloading`, looks up the five JSON C ABI
  functions (reporting the first one missing), calls them, sends each identity query
  that the verified step asks for, and keeps the process-global state in a `Mutex`.
