# highway

The verified core of a cross-chain bridge node.

`src/` holds the decisions of the node, each with a contract proved by Verus:

- `text`, `map`: prefix tests, `u16` parsing and a string map without duplicate keys;
- `address`, `amount`: 20-byte addresses decoded from hexadecimal text under `alloy`'s or
  `fixed-hash`'s rules, 256-bit amounts;
- `endpoint`: the transport an endpoint URL asks for;
- `builder`: the checks an EVM chain's settings must pass before services are built
  (`plan` for the EVM services, `monitor_plan` for the block monitors the node runs);
- `reactor`: which chains of the configuration are set up, in which order, and where it stops,
  and what follows a build;
- `router`: the map from chain identifiers to the channels of their writers;
- `monitor`: which blocks the monitors read and what they tell the router;
- `laws`: properties that relate several of these operations.

`app/` is the node program around it: the command line, the configuration
file, the `alloy` providers and the `tokio` tasks.
