# conduit_op_node

Verified core of the ConduitOp OP Stack execution node, written in Verus.

- `src/receipt.rs`: deposit nonce and L1 fee of OP transaction receipts.
- `src/eth_api_builder.rs`: eth API builder settings and the plan that
  building the API follows (sequencer client, flashblocks service, flashblock
  consensus client, priority fee).
- `src/node.rs`: the values the node hands its component and add-on builders,
  and the EIP-1559 payload attribute overrides of a dev chain.
- `app/`: the reth SDK trait impls and async plumbing around the library.
- `tests/`: tests of the library against the real op-alloy and alloy types.
