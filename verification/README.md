# nanocld_core

The decision logic of the nanocl daemon's virtual machine images and of its
client's metric requests, written in Verus with contracts.

- `src/` is the verified library:
  - `workflow.rs`: the events and actions that image operations exchange with
    the code that does their work;
  - `delete_image.rs`, `create_snapshot.rs`, `clone_image.rs`,
    `resize_image.rs`, `create_image.rs`: one machine per operation, each with
    its transition function, and proofs that it ends and how it succeeds or
    refuses;
  - `image.rs`: image records, file paths, `qemu-img` command lines, the
    progress figure of a conversion and stream framing;
  - `metric.rs`: the metric requests of the client;
  - `error.rs`, `text.rs`: errors, decimal numbers and white-space trimming.
- `app/` runs the machines against a database, the file system and
  `qemu-img`, and holds the JSON forms of the values.
- `tests/` exercises the library on concrete values.
