# payment_service

An invoice and payment service: businesses register and get an API key, create
customers and invoices, take card payments through a card processor, and receive
signed webhook events about their invoices.

The crate is split in two:

- `src/` is the library, verified with Verus. It holds the decisions of the service,
  each with a contract: the invoice life cycle and invoice totals
  (`services::invoice_service`), the steps of a card payment with its idempotency
  rule (`services::payment_service`), webhook events, signatures, delivery and retry
  schedule (`services::webhook_service`), API keys and authentication
  (`handlers::business`, `routes::auth`), the mock card processor
  (`handlers::mock_psp`), the overdue write-off (`jobs::overdue`), and the stored
  records (`models`). Hashing (Argon2),
  HMAC-SHA256, hex encoding, random values, ids (ULID) and the clock are reached
  through small trusted functions in `crypto.rs` and `entropy.rs`.
- `app/` is the HTTP server around it (axum, sqlx on PostgreSQL, reqwest, tokio):
  it reads requests and the database, asks the library what to do, and writes and
  sends the results.

Tests of the library are under `tests/`.
