# market_maker

A Bybit spot market maker that hedges its delta on Deribit, with a monitoring
and control API. The crate is written in Verus: the library under `src/` is
verified, and the program under `app/` is ordinary Rust built on it.

## Library (`src/`, verified)

- `utils::circuit_breaker` — the breaker's state machine over an abstract
  model, with proofs that it opens after `failure_threshold` consecutive
  failures, refuses calls while open until the time it has been open (as
  read from the monotonic clock) reaches its timeout, then probes half-open
  and closes after `success_threshold` successes.
- `utils::latency_monitor` — sliding windows of latencies (nanoseconds) and
  their statistics (count, min, max, mean, p50, p95, p99 over the sorted
  window), with a proof that the statistics are ordered.
- `utils::window`, `utils::history` — a window that keeps the latest `n`
  items, and a history that drops its oldest records in chunks.
- `utils::clock`, `utils::text` — clock readings and the timestamps made
  from them, decimal rendering, string comparison.
- `config` — the strategy and risk settings and the update the control API
  applies to them, with the names of the settings it changed.
- `exchanges` — order vocabulary and the order rules (active orders, status
  after a fill, cleanup of old orders).
- `exchanges::order_manager` — orders filed by order id and by client order
  id, with lookups, updates, per-symbol queries and cleanup; each order's
  prices and quantities ride along untouched. Proofs: a filed order is what
  both lookups find, and cleanup never drops an order that can still trade.
- `exchanges::bybit` — endpoints, HMAC-SHA256 request signing (through the
  `hmac`, `sha2` and `hex` crates), query strings, field names and parsers.
- `exchanges::deribit` — endpoints, JSON-RPC method names, field values,
  token renewal rule, hedge option expiry window.
- `exchanges::websocket` — stream topics and routing, subscriptions,
  connection bookkeeping, the reaction to each kind of frame, liveness,
  and the reconnection back-off (1 s doubling to 60 s, reset after a clean
  close), with a proof of its closed form.
- `api` — the trading state and the records and labels of the API.

## Program (`app/`)

Networking (REST, WebSocket, HTTP server), configuration loading, logging,
and everything computed in floating point: the order book, VPIN, adverse
selection, Avellaneda-Stoikov quoting, Black-Scholes pricing, risk limits,
fills, positions and PnL, and the strategy loops.
