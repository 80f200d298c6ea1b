# service_compiler

A service that compiles Rust code to WASM. Code is compiled by Cargo in a
container of its own; the responses are cached by the digest of the code.

The library in `src/` makes the decisions, and Verus proves that it makes them
as its contracts say. It does no input or output: it takes events as plain values
and says what is to be done. `app/` does what it says: it runs the processes, the
channels and the timers, and it serves requests over TCP.

- `service`, `caching`: the service, and what its answers have to do with one
  another.
- `client`, `connection`: its clients, and how a client finds the compilers.
- `coordinator`: one container at a time for each coordinator.
  - `container`, `docker`, `tracking`, `fleet`: how containers start, run and end,
    and what holds of all of them.
  - `commander`, `demultiplexer`, `io_queue`, `message`: exchanges with the worker
    in a container.
  - `request`, `manifest`, `compilation`, `cargo_task`, `output`: a compilation,
    from the request to the response with all that was printed.
  - `crates`, `version`, `error`: what a container tells of itself, and what can
    go wrong.
- `plugin`: what compiled plugins are built around.
- `text`, `digest`: text handling and SHA-256.

Properties of the library as a whole are the public proof functions of each
module. What the library takes from other crates without proof stands behind small
functions whose comments say what is trusted.
