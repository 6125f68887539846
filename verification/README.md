# rv_backend

The backend of the RV kiosk: accounts log in by password or RFID tag, buy
products from their balance, and may return a purchase within minutes.

- `src/` is the verified library (Verus). It holds the rules of the
  service: purchase and return planning, the funds check, account updates,
  password and RFID hashing (legacy SHA-256 scheme and bcrypt), access
  tokens (issue, check, bearer header), the role and terminal gates, the
  configuration defaults, the choice of the purchase a return undoes, the
  mail bodies, the conversions shown in answers, and the mapping of errors
  to HTTP answers. Calls into `bcrypt`, `hex`, `sha2`, `jsonwebtoken`,
  `minijinja` and the system clock stand behind trusted wrappers whose
  contracts are stated in `src/crypto.rs`, `src/auth.rs` and
  `src/email.rs`.
- `app/` is the HTTP server (axum, sea-orm, lettre): it reads the
  environment and the mail templates, queries and writes the database,
  sends mail, and calls the
  library for every decision.
- `tests/` exercises the library on concrete values.
