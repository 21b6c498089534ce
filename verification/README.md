# vortex_ais

The decision logic of the Vortex AIS launcher, its game windows and its helper bot,
written in Verus and proved against its contracts.

- `src/` — the verified library:
  - `script` — the scripts injected into the game page, and the joined mods;
  - `protocol` — the `v22://` file protocol: requested file, media type, response;
  - `release` — releases, version comparison and the update archive's address;
  - `launch` — the launch flow as a state machine (event in, console lines and action out);
  - `console` — the launcher window's state: console, status line, options;
  - `archive` — reading an update archive entry by entry (through the `zip` crate);
  - `update` — the names of the launcher's folders and locating the new program;
  - `bot`, `users` — the bot's commands and texts, the users API address;
  - `text` — string trimming and comparison used by the above.
- `tests/` — tests of the library on concrete values.
- `app/` — the programs: the launcher window (eframe), the game windows (tao/wry), the
  bot (serenity), and all file, process and network work.
