# backend

Verified building blocks of a ledger backend, written in Verus.

- `src/backup`: watermark-tagged backups of the datastore and the cache,
  classification of cache keys, consistency checks and restore.
- `src/ip_allowlist`: trusted proxy hops, `X-Forwarded-For` splitting and
  client resolution, and the allowlist check.
- `src/jobs`: job errors, dead-letter queue and alert sinks, time spans, retry
  policy and the step-by-step scheduler.
- `src/text`: character-level helpers (splitting, trimming, decimal numerals).
- `app/`: glue to `std::net` address parsing and a real-time job runner that
  sleeps between retries.

`tests/` exercises the library on concrete values.
