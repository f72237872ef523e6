# shishabot

The logic of a Discord bot that renders osu! replays with danser, written in
Verus: every function in `src/` carries a contract that Verus proves.

## Layout

- `src/` — the verified library
  - `text.rs`: string handling as `std` does it (decimal text, integer
    parsing, splitting, trimming, replacing, case)
  - `osr.rs`: the `.osr` replay header written in front of raw replay data
  - `backoff.rs`: the retry schedule of beatmap downloads, and the check of
    downloaded beatmap files
  - `render.rs`: the checks of the render commands, reading Bathbot embeds,
    finding the score behind them, permission bits
  - `queue.rs`: what the queue commands show
  - `settings_edit.rs`, `settings_view.rs`, `settings_file.rs`: editing and
    showing a user's danser settings, and the settings file's sections
  - `skins.rs`: skin uploads, folder names, listing and removing skins
  - `server.rs`, `guild_setup.rs`: prefixes and render channels of a server
  - `config.rs`: the user and server configuration commands
  - `help.rs`: the help menus and pages
  - `commands.rs`: the smaller commands and their replies
  - `embed.rs`: embed fields as plain data
- `tests/` — tests of the library on concrete values
- `app/` — a command-line program doing the file and network work around the
  library: settings files (with their fractional values), skin folders,
  beatmap downloads, replay files, the stored server settings and the osu!
  API

Calls into other crates (`osu-db`, `time`, `twilight-model`, `serenity`, and
parts of `std`) go through small trusted wrappers whose contracts state what
those crates' sources show; each is documented where it stands.
