# vsm_rs

The verified core of a Viable System Model runtime, written in Verus.

- `src/` is the library. Its functions carry `requires`/`ensures` contracts that Verus
  proves, except a few trusted wrappers around outside code (fresh UUIDs, cloning a
  `serde_json` value, std's `Debug` quoting), whose contracts are stated from that
  code's documentation, and the cancellation token, whose shared flag has no stated
  contract: the protocol records of Systems 1 to 5, the runtime configuration and
  role builder, the channel broker's routing and history, the algedonic and temporal
  channel rules, and one state machine per subsystem (unit registry and admission,
  coordination, control and audit, environmental sources and the intelligence
  cycle, policy, the algedonic lifecycle and signal processor, the variety records, the recursion boundary and the observer bus). Laws that relate several
  operations are stated as public proof functions beside the operations.
- Instants are epoch milliseconds and durations milliseconds; priorities and
  thresholds of the algedonic channel are in thousandths.
- `app/` is the demonstration binary: actors (ractor), serde copies of the message
  and error types, the clock, and the floating-point signal scoring of the algedonic
  channel. It hands the library plain values and carries out the routes it returns.
- `tests/` exercises the library from outside.
