# discordbot

The decision logic of a Discord music bot, verified with Verus.

- `src/` — the library: command checks (`checks`), the messages the bot
  sends (`reply`), the voice and player commands as state machines
  (`voice`, `legacy`), the general, emoji and moderation answers
  (`general`), and decimal rendering and parsing (`decimal`).
- `tests/` — tests of the library on concrete values.
- `app/` — the bot itself: serenity commands and hooks, the songbird voice
  manager and the Lavalink client. It gathers what those services report,
  hands it to the library as plain values, and performs the actions that
  the library's machines name.
