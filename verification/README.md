# zhsmonitor

SQL generation for the ZHSMonitor / CaSilicate server monitoring station, verified with Verus.

- `src/decimal.rs` — decimal rendering of `i32` values, with the proof that it reads back.
- `src/generate_sql.rs` — the series and current-aggregate query texts.
- `src/generate_leveled_sql.rs` — display levels (300 s … one year, 300 buckets each) and the queries they select.
- `src/status.rs` — the monitored tables and the query set of the current-status overview.
- `src/responses.rs` — integer series points decoded from result rows.
- `app/` — the HTTP server (axum, sqlx), JSON responses and the floating-point rounding.
