# meowsn

The core of an MSN Messenger (MSNP11) desktop client, written in Verus and
verified: each screen of the client is a state machine whose transitions
carry contracts, and the user interface and network code only feed events
in and carry actions out.

- `src/` — the verified library: presence statuses, the contact table and
  repository, the contact list, conversations, the sign-in form and the
  sign-in steps, settings, release checks and link detection in messages.
- `tests/` — tests of the library on concrete values.
- `app/` — a small command-line client around the library: settings file,
  SQLite store, keyring, notifications and the MSNP11 connection.
