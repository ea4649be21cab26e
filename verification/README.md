# fewwis

The Fewwis Discord bot, split in two:

- `src/` — the verified library (Verus): finding a code block in a message,
  the cards the bot answers with, the paginated-message state, the flag quiz
  (pick, guesses, course of a game, tally), task-step suggestions and
  numbering, the error answers, and the command lists.
- `app/` — the bot itself: Discord and database plumbing that hands plain
  values to the library and acts on what it returns.
- `tests/` — tests of the library on concrete values.
