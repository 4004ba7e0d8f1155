# training_network

A verified library for a federated-training network on NEAR.

- `src/` (Verus): the contract's rules for training requests, workers and
  governance proposals (`contract`, `state`, with accounts, account sets and
  maps in `account` and `account_set`), and the node's decisions: which
  actions of a block are requests for its worker (`block_scan`), when it is
  stalled or behind the chain, and how it backs off between restarts
  (`indexer`, `node_types`).
- `app/`: the NEAR contract entry points and the indexing node (NEAR Lake
  stream, locks, runtime, command line) around the library.
- `tests/`: tests of the library on concrete values.
