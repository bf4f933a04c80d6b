# hoforras

The domain, decision kernel, consensus gateway and mesh coordination of a district heat-trading
network, verified with Verus.

- `src/` is the verified library. Thermal quantities are IEEE-754 single-precision values held by
  their bit pattern (`binary32`); the library compares them exactly and never does float
  arithmetic. The long-running orchestrations (the trading tick, finalizing a trade through
  consensus, reacting to node churn, booting the MCP bridge, explaining an anomaly) are state
  machines: a function from the current state and the last result to the next state and action.
- `app/` is the runtime around it: the asynchronous ports, the runners that perform each action of
  those state machines, the float arithmetic (net position, prices, trimmed mean, credit ledger),
  and a generic `postcard` encoder for serializable copies of the library's types. The canonical
  bytes a trade signature is taken over are computed in `src/canonical.rs`.
- `tests/` exercises the library on concrete values.
