# lafere

A request/response and streaming protocol over byte streams, with a
protobuf codec for message bodies. The library's logic comes with proved
contracts and laws.

- `src/` is the verified library:
  - `varint`, `fixed_bytes`: the integer encodings of the wire formats;
  - `protobuf`: the protobuf wire format, `MessageEncoder`/`SizeBuilder`,
    `MessageDecoder`, and the `EncodeMessage`/`DecodeMessage` traits with
    their implementations for numbers, bytes, strings, options, sequences
    and tuples; `protobuf::roundtrip` proves that written values read back
    (scalars, byte strings, strings, byte arrays, and sequences and options
    of any values that read back), `law_fields_roundtrip` that fields are
    read back in the order they were written, and
    `law_builder_counts_encoder` that the size builder counts the bytes
    that the encoder writes;
  - `packet`: packet headers and flags, packet bytes, and the
    `PacketReceiver` that puts packets together from a header and a body;
  - `basic`, `api`: messages with an action (and, in `api`, a success
    flag), requests and responses, protobuf bodies;
  - `handler`: the bookkeeping of the two sides of a connection (which id
    waits for what) and what they do with a packet;
  - `stream`: the decisions of the task that runs a connection;
  - `handshake`: the key exchange that opens an encrypted connection, what
    the server sends and signs, what the client reads and checks, and what
    each key is derived from (`law_keys_cross`: each side receives with the
    key the other sends with);
  - `derive_input`: the rules the derive macros check on a user's types;
  - `error`, `client`: errors and configuration.
- `app/` runs the library on tokio: connections, their tasks, the key
  exchange over a stream, the api server and client, JSON bodies, and the code that the derive macros
  generate.
- `tests/` exercises the library on concrete values.

Not part of this crate:

- the `#[api]` attribute macro that writes request handlers;
- encrypted connections: the key exchange is here (`handshake`), but the
  packet bytes that an encrypted stream sends are not;
- requests sent by the server to a client (enabling server requests, the
  requestor on the server side), and a server built from a set of request
  handlers shared between listeners.
