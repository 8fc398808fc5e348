# rustonance

A Discord music bot, split in two:

- `src/` is the verified library (Verus). It holds the bot's decisions:
  member counting for the voice channel the bot sits in and when the bot
  leaves (`handlers`, `model`), the replies and choices of the chat commands
  (`commands`), the "now playing" card (`messaging`), error texts
  (`errors`), reading Spotify links
  and YouTube queries and metadata (`sources`), and exact string utilities
  (`text`).
- `app/` is the program around it: the Discord client, the command
  framework, the voice connection, HTTP calls to Spotify and YouTube, and
  logging. It gathers plain values, calls the library, and carries out what
  the library decides.

Tests of the library are under `tests/`.
