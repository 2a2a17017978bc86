# backend

The decision logic of a service that compares the hardware needs of
blockchain miner nodes and their cloud prices, formally verified.

- `src/` is the verified library: request validation, error responses,
  API-key admission and per-key rate limiting, the rules of the node,
  price-history and API-key tables (what each storage operation decides from
  what the store reports), and the planning side of fetching prices from the
  Google Cloud billing catalog (SKU selection, input checks, paging with
  retries).
- `app/` is the HTTP service around it: Actix routes and middleware, SQLite
  access with sqlx, catalog calls with reqwest, the tokio scheduler, and the
  floating-point price arithmetic.
- `tests/` exercises the library on concrete values.
