# oktebot

A Telegram bot for the Okno community: user registration and profiles, a
reputation top, admin roles, bans, OKNO Unit drops and reports, and a support
desk.

The crate is split in two.

- `src/` is the library, verified with Verus. It holds the bot's logic as
  functions from plain values to plain values, each with a contract:
  argument parsing (`bot/args.rs`), the callback-data formats and the routing
  of updates to handlers (`bot/scheme.rs`), the replies and keyboards of every
  screen (`bot/mod.rs`, `bot/profile.rs`, `bot/oknounit.rs`,
  `bot/support.rs`, `bot/utils.rs`), a unit's report and an admin's
  acceptance of it as state machines (`bot/oknounit.rs`), the roles and the in-memory names index of the user
  registry (`oknoid.rs`), and the text helpers they rest on (`text.rs`).
  Public proof functions named `lemma_*` state the laws that relate several
  operations, such as the round trip of every callback-data format.
- `app/` is the program around it: configuration loading, the SQLite
  database, the Telegram API and the dispatcher. It performs the I/O that the
  library's functions ask for and hands them the results.

Configuration is read from `/etc/oktebot.toml`, or from the file named by
`OKTEBOT_CONFIG`.
