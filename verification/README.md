# rapture_core

Guilds, channels, chat and voice over replicated operation logs, and the control plane that
provisions the agents taking part in them. The library is written in Verus: each function
states what it returns and changes, and the statements are proved.

## Layout

- `src/` is the library.
  - `collections`, `sorting`, `text`, `json`, `crypto`, `clock`: ordered sets and maps, sorting,
    texts, JSON values, hashing and sealing.
  - `permissions`, `control`, `replay`, `guild_laws`: guilds, their operations and their log.
  - `channel_groups`, `reconcile`, `keyring`: who is in a channel's group, and its keys.
  - `chat`, `chat_laws`, `messaging`, `voice`, `voice_actions`, `voice_media`: what is said.
  - `sim`: a relay in memory with its clients.
  - `app`, `app_core`, `storage`: the application around all of these.
  - `agent`: the control plane. `listener` and `keys` read what comes in over the relays,
    `commands` handles a command step by step, `reaper` a sweep; the other modules hold what
    these steps do, and `repetition_laws` what a repeated command is answered.
  - `profile`, `mirror`, `workspace`, `ci`: smaller tools.
- `tests/` runs the library on concrete values.
- `app/` is ordinary Rust around the library: disk, relays, HTTP and command lines.

Where the library calls another crate, a small function marked `external_body` makes the call,
and its comment says what is taken on trust.
