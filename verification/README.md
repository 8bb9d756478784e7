# backend_rust

The verified rules of a back-office HTTP API (users, roles and permissions,
products, audit trail) and of its CRUD module generator.

- `src/` is the library, verified with Verus: listing-query validation
  (`query_parser`) and the plans and pages of the listings (`listing`), error kinds and responses (`errors`), authentication and
  authorization decisions (`middleware`), cache keys and rate limiting,
  messaging and e-mail decisions, which sessions a change ends and how a
  refresh rotates them, the start-up seeding plan (`infra`), the record
  transformations and checks of each service (`modules`), the generator's
  source templates and registry edits (`generator`), and string utilities
  (`text`, `ids`).
- `app/` holds what runs around it: the generator command (file I/O), the
  start-up routine, the listings and the role, product and user operations
  against the database, and the
  adapters to axum, Redis, RabbitMQ and SMTP.
- `tests/` exercises the library on concrete values.
