# jlc_discord_bot

A Discord bot that watches the stock of JLCPCB components and announces changes.

- `src/` is the verified library (Verus): the stored data (`keys`), the reading of the
  JLCPCB component-detail answer and the per-component stock decisions (`json`, `jlc`),
  the uptime report (`uptime`), the daily schedule (`schedule`), the command replies and
  database statements (`commands`, `extras`), and decimal rendering (`text`).
- `app/` is the bot itself: the Discord client and its commands, HTTP requests, the
  Postgres pool and the scheduler loop, all calling the library for their decisions.
- `tests/` runs the library on concrete values.
