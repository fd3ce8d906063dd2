# sentinel

The verified core of SENTINEL, a local-first IoT edge gateway: devices pair
during a 60-second window, authenticate with a token, and stream payloads that
are sealed with AES-256-GCM before they are stored; the gateway uploads them in
batches when the network is stable.

- `src/` is the library, verified with Verus: payload sealing and key
  handling (`crypto`, `encoding`), device authentication and ingestion
  decisions (`ws`), the pairing window (`pairing`), network health
  classification (`network`), the rolling event log (`logging`), the sync cycle
  as a state machine (`sync`), configuration rules (`config`, `settings`,
  `commands`), row types and database rules (`db`), shared state (`state`),
  errors (`error`) and text helpers (`text`).
- `tests/` runs the library on concrete values.
- `app/` is the program around it: the WebSocket server, the HTTP probes and
  uploads, SQLite/SQLCipher, the OS keychain and the JSON files.
