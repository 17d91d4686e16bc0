# chrome_remote_interface

A Chrome DevTools Protocol client and the generator of its protocol model,
with the generator and the client's decisions verified by Verus.

## Layout

- `src/` — the verified library:
  - `text.rs`: template words, the token model of generated code, its
    source text, and what it relies on from heck (identifier case
    conversions) and proc_macro2 (string literals, and the printing of a
    token stream);
  - `protocol.rs`: the model of a protocol description, the shape check of
    raw types, experimental types;
  - `context.rs`: the naming context of code generation;
  - `render.rs`: the generated Rust model of a protocol, token by token;
  - `features.rs`: the cargo features a generated model is expected to have;
  - `process.rs`: the description of a child process;
  - `browser.rs`: launch options, the command line they give, the
    address a started browser announces, and the address of its protocol
    description (through the url crate);
  - `receive.rs`: which reply a request gets, where events go, how a broken
    transport is reported, and when a message may be read (only while no
    reply is held, so none is lost).
- `app/` — the I/O around it: reading `protocol.json` and `Cargo.toml`,
  starting and stopping the browser, the websocket and pipe transports, and
  the asynchronous client.
- `tests/` — tests of the library.
