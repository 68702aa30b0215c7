# agee

The core of the Agee chain — coin amounts, ids and claim keys, the ledger and
supply cap, blocks and merkle roots, validator sets and attestations, Maze
Runner floor proofs, and the floor-reward claim executor — written in Verus,
with each function's behaviour stated as a contract and proved.

- `src/` is the verified library. SHA-256 (`sha2`) and BLAKE3 (`blake3`) are
  called through the two trusted wrappers in `src/crypto.rs`.
- `app/` is the node program around it: command line, HTTP API, the block log
  and genesis file on disk, serde encodings, and the float-based reward
  scaling.
- `tests/` exercises the library on concrete values.
