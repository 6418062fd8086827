# tangello

Tangello is a desktop client for the Music Player Daemon (MPD). This crate
holds its decision logic as a Verus-verified library, and the window itself
as an ordinary program around it.

- `src/` — the verified library:
  - `text.rs`: substring search, path joining, lower-casing;
  - `song.rs`: the song record, its tags and album label;
  - `search.rs`: the library search;
  - `config.rs`: the persistent settings and the settings window's buttons;
  - `scan.rs`: the depth-first walk of the music directory;
  - `player.rs`: play/pause, seeking, cover art, notification text;
  - `state.rs`: the interface state and what each control does to it;
  - `laws.rs`: properties that relate several operations.
- `app/` — the egui window, the connection to the daemon, the
  configuration file, notifications and tag reading. It performs what the
  library asks for and hands back what it gets.
- `tests/` — tests of the library on concrete values.

The program reads `assets/empty.png` (the placeholder cover) and
`assets/MesloLGS_NF_Regular.ttf` (the icon font) from its working directory.
