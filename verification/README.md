# dbc_bot

The Discord Brawl Cup tournament bot, with its rules, texts and picture composition
in a library proved with Verus.

- `src/` — the verified library: regions and modes, battle-log judging (first to two
  wins), bracket planning, the menus' navigation steps and texts, the log entries,
  the shapes and the layering of the pre-battle picture. Calls into `poise` (serenity's
  colours and timestamps), `chrono`, `image` and `base64`, and a few functions of std
  (`String::push`, `char` classification and case, `str::from_utf8`, `str::trim_end`),
  stand behind small trusted wrappers whose contracts say what is assumed.
- `tests/` — tests of the library on concrete values.
- `app/` — the bot itself: Discord commands, HTTP requests, files and the conversions
  between the outside crates' types and the library's models.
