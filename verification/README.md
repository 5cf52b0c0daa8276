# Tiered cache

A cache server with three tiers: an expiring table in memory, Redis, and a
PostgreSQL database. Reads go down the tiers and fill the ones above; writes go
through all of them; deletes empty them from the bottom up.

- `src/` is the library. It decides everything that does not need a connection:
  what memory holds and evicts (`memory`), which commands and statements the
  stores are sent (`redis_pool`, `database`, `migrations`), what a request is
  answered for each combination of replies (`service`, `http`, `error`), how
  settings are read (`config`, `text`, `time`) and what the load generator sends
  and counts (`load`). Its functions are verified with Verus against their
  contracts. Ten small wrappers are trusted instead: one reads the system clock
  and one writes out a span of time (`time`), eight call the `redis` and
  `bb8-redis` crates (`redis_pool`), and each says what it claims of the function
  it calls. `laws` states what holds of the tiers together.
- `app/` connects it: the HTTP server, the two connection pools, and the load
  generator, which runs with the argument `load-test`.
- `tests/` runs the library on concrete values.

## Use

    curl -X PUT --data '{"some":"data"}' http://localhost:8080/cache/mykey
    curl http://localhost:8080/cache/mykey
    curl -X DELETE http://localhost:8080/cache/mykey
    curl http://localhost:8080/cache/health

The server reads `REDIS_URL`, `DATABASE_URL`, `MEMORY_CACHE_TTL`,
`REDIS_CACHE_TTL` and `MAX_MEMORY_ITEMS`; the load generator reads `SERVER_URL`.
