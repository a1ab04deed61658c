# onchainos

Verified core of the `onchainos` agent-commerce command line, written in
Verus.

- `src/trade_signal` — the bilingual trade-signal grammar: titles, `|`
  separated `label:value` fields in a fixed order per asset class, exact
  decimal numbers, dates, keyword whitelists, per-class parameters (spot, perp,
  prediction, option, DeFi) and the V2 envelope. `parse_signal_text` is
  specified completely by `spec_parse_signal_text`; the laws of a parsed
  signal are `lemma_parsed_signal_class` and `lemma_parsed_signal_invariants`.
- `src/decimal.rs` — exact non-negative decimals (`digits[.digits]`) with
  order and normalization laws.
- `src/autotrade` — buyer-side automatic copy-trading: command recipes,
  execution cards and notify-only records, freshness, job-id and grant-target
  decisions, chain names, and `autotrade::flow::step`, the inbound chain as a
  state machine (each step decides the next action from the last result).
- `src/subscription.rs`, `src/device_routing.rs` — subscription views (with
  whether this device receives each one) and receive-device routing.
- `src/signal_command.rs` — the `signal` command's routing and list request.
- `app/` — the command line around the library. `main.rs` wires the
  `signal` commands (the `chains` and `list` requests are printed, since no
  HTTP client is part of this crate). `backend.rs` and `pipeline.rs` hold the
  handlers that a host program calls with its own transport (the `Backend`
  and `PipelineHost` traits): the device-list, device-update and subscription
  handlers, the loop that runs `flow::step`, and the file-system latch; `main`
  does not call them.
- `tests/` — executable tests of the library.
