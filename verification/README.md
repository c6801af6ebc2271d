# xmip-core-message

The Message: a processing unit over immutable content, with its lineage, its
treatment, the shapes that turn a Stream into Sections, and the disposition of
an incoming Stream at ingress. Written in Verus: every function in `src/`
carries a contract, and Verus proves each one except two small trusted
wrappers around std (`String::push` in `src/text.rs`, `Arc::clone` in
`src/message.rs`), whose contracts restate std's documentation.

- `src/message.rs`: the Message, its view, its derivations, and the laws of
  its lineage (generation, predecessor, shared content, carried treatment).
- `src/treatment.rs`: priority, execution profile, durability, and the
  `conversation`, `business` (default) and `pass_through` presets.
- `src/shape.rs`, `src/text.rs`: parts and shapes, the media type a Stream is
  chosen by, and the character rules it is read with.
- `src/disposition.rs`: the gates an Arrival meets and what Xmip keeps.
- `src/stream.rs`, `src/ids.rs`, `src/context.rs`: the Stream, the identities
  and the context a Message is built from.
- `app/`: serde forms of the treatment records, `Display` for shape errors, and
  the printed walk of an Arrival through the lifecycle.
