# yocalhost

An HTTP development server that simulates latency and bandwidth limits, with
its decisions verified by Verus.

- `src/` is the library: what the server decides, with contracts and proofs.
  - `server`: the settings, and where each activity begins
  - `exchange`: one request, from its latency to the last byte of its answer
  - `startup`: waiting for a server to answer
  - `acceptor`: accepting connections
  - `stats`: what was sent so far, and its summary
  - `args`: the command line, and reading a bandwidth
  - `handles`: what all connections share, the limiter and the statistics
  - `http`: requests, and the heads of answers
  - `duration`, `ports`, `text`, `paths`: spans of time, ports, numbers in text,
    file system paths
- `app/` is the program: it waits, listens, reads files and talks to clients, and
  asks the library what to do next.
- `tests/` runs the library.

Three activities are state machines: an exchange, a pinger and an acceptor. Each
hands out an action, and is handed back what came of it.
