# candlestick_rs

Detection of multi-candle candlestick patterns (engulfing, harami, stars,
three white soldiers, three line strike, trends, ...) over a stream that keeps
the five most recent candles, verified with Verus.

Prices are integers on any fixed scale (cents, or eight decimal places),
which makes every comparison exact: midpoints are compared doubled and ratios
(tolerances, body shares) are compared by cross-multiplication in basis points.

- `src/candle.rs` — the `CandleStick` trait (prices and tuning ratios), the
  candle measures (body, range, shadows) and classifications (bullish,
  bearish, doji, marubozu), and its implementation for
  `(open, high, low, close, volume)` tuples of `i64`.
- `src/candle_stream.rs` — the ring buffer and one detector per pattern; each
  detector's contract is the pattern's predicate on the newest candles.
- `src/patterns.rs` — the pattern predicates.
- `src/laws.rs` — proved properties: what the stream holds after pushes,
  the ring buffer's cursor and slots after any number of pushes,
  mirrored patterns excluding each other, variants implying base patterns,
  confirmations across a push.
- `src/scaling.rs` — proof that detection does not depend on the price
  scale: multiplying all prices by a positive factor keeps every pattern.
- `app/lib.rs` — conversion of `f64`-quoted candles to integer units.
