# agent_escrow

An escrow for AI agents on Stellar: overseers create agents and set their
spending limits, depositors fund them, agents pay within their balance and
their per-transaction, daily, weekly and monthly caps, and payments can be
disputed and refunded. An emergency pause stops agent creation, deposits
and payments.

The rules are a Verus-verified library (`src/`); the Soroban contract that
runs them on the ledger is ordinary Rust (`app/`).

## Layout

- `src/storage/` – the contract's storage as plain values (`Storage`, whose
  model is `EscrowState`), the `Env` a call runs in (ledger time, the
  contract's address, and the authorizations and token transfers the call
  asks of the host), and `Table`, a key-value store with the semantics of
  contract storage.
- `src/agent/`, `src/limits/`, `src/payment/`, `src/dispute/`,
  `src/overseer/` – the calls. Each one's contract states, through an
  `*_outcome` function, exactly what it leaves in storage and returns; a
  refused call leaves storage unchanged.
- `src/lib.rs` – `EscrowError` and the `AgentEscrow` entry points.
- `src/laws.rs` – properties across calls, proved: refusals change nothing,
  balances stay equal to deposits less spending, the history of payments is
  kept, payments stay within limits, reads give back what was written, and, over
  any sequence of calls after setup, the setup and configuration stay,
  resolved disputes stay resolved, the agent count is the agents created
  and ids are dense.
- `app/` – the Soroban contract: it loads the library's storage from
  the contract's storage (settings and counters in instance entries, each
  table of records in a persistent entry), calls the library, requires the recorded
  authorizations, makes the recorded token transfers, and stores the result.
- `tests/` – the library's behaviour on concrete scenarios.
