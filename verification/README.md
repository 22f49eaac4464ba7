# agent_session_search

A verified library for the search side of agent sessions: the lifecycle
events and identifier-only search invalidations a session service publishes,
the decisions the search consumer takes on them, the projection of a session
snapshot onto its folded messages and the documents written for it, the
choice of mail transport and reranker, and the Anthropic API settings.

- `src/` is the library, written in Verus; every function there carries a
  contract and is proved.
- `tests/` exercises the library on concrete values.
- `app/` holds the asynchronous adapters around it (broker, database, search
  store, mail providers), the serde forms of its events, and the reading of
  configuration from the environment.
