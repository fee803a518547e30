# auth_service

A multi-tenant authentication service: tenants and their users register,
users sign in for a client and receive HS384 JWTs, and callers are
authenticated by their bearer token.

- `src/` is the verified library. Each HTTP handler is a state machine
  (`controllers::flow::Step`): it asks for one piece of database work at a
  time and is resumed with what came back; each step's contract states, for
  every reply, the next request and stage or the answer. Secrets stored at
  rest (passwords, refresh tokens, tenant keys) are sealed by
  `utils::generate_short_hash`, whose `lemma_decrypt_encrypt` proves that
  opening under the same key undoes sealing. The calls into `hmac`, `sha2`,
  `rand` and `jwt` stand behind the trusted items of `primitives.rs`.
- `app/` is the Rocket server: configuration from the environment, the
  diesel schema and rows, JSON bodies, the bearer-token request guard, and
  the loop that runs a handler's database work.
- `tests/` runs the library on concrete values, the handlers included, with
  the database replies written by hand.
