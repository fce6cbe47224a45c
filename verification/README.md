# Observatory

A health monitor for EPS services and nodes: it polls the services of
`~/.epc/services.toml` and the nodes of `~/.epc/nodes.toml`, keeps what it finds in
`~/.epc/observatory.db`, sends messages when something changes, and shows the state on web pages
and on a terminal screen.

`src/` is the verified library. It holds what the monitor decides and computes:

- `nodes`: the command that a node is asked to run, the reading of its report, its status
- `poller`: the check of a service, and what a poll records and whom it alerts
- `tui`: the terminal screen, line by line
- `map`, `logs`, `api`: the page with the code map, the requests for logs, the JSON of the services
- `settings`, `paths`, `names`: the settings, the places of files, the names that requests may hold
- `store`: what the database holds
- `text`, `number`, `double`, `bytes`: strings, decimal numbers, floating-point numbers by their bit
  patterns, text out of bytes

The functions that call another crate or a function of the standard library without a
specification are marked `#[verifier::external_body]`; what their contracts claim is said above
each of them.

`app/` is the program around the library: the server, the database, the terminal, and the
processes that are run.
