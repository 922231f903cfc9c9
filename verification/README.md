# rocket_launcher

The logic of a game launcher for Need for Speed: World private servers, verified with Verus:
installing the game from its CDN packages, verifying and repairing it, ModNet modules and
server mods, undoing a modded session, the game's settings file, the local proxy between the
game and its server with the Discord presence it drives, and the system's firewall, Defender
and DXVK chores.

## Layout

- `src/` — the verified library. Each module states its contracts over spec functions and
  views, and its laws as public proof functions (`law_*`).
  - `text`, `num` — strings and decimal numbers as character sequences.
  - `digest` — MD5, SHA-1, SHA-256, base64, LZMA, gzip and UTF-8 (through their crates).
  - `xml` — quick_xml's events as plain values, read and written.
  - `settings`, `inspect` — UserSettings.xml: the settings, the language, a look into it.
  - `index`, `download`, `verify` — package indexes, sections, the installation pipeline,
    checksums and repairs.
  - `mods`, `cleanup` — ModNet modules, server mods, and undoing their links.
  - `game_xml`, `game_state`, `launch`, `rpc` — the game's server answers, what the presence
    shows, the proxy, launching, Discord.
  - `system` — machine ids, system information, firewall, Defender, folder permissions,
    updates, DXVK.
- `tests/` — tests of the library on concrete values.
- `app/` — the commands around the library: HTTP, files, processes, thread pools, Discord's
  client and the progress events; it is not verified.

## Design notes

- `cleanup::ScriptsBaselines` keeps its entries in a `Vec` of (key, names) pairs, at most one
  per key, and is viewed as a `Map` from key to names. A std `HashMap` keyed by `String` has no
  specification in vstd from which a lookup after an insert can be proved, so the store would
  carry no verified contract; with the `Vec` every operation's contract is exact.
- The digests are computed by the `md-5`, `sha1` and `sha2` crates on a whole byte buffer: the
  library's contracts name the digest of the bytes, and `app/` reads a file and hands its bytes
  over. Streaming a file through the hashers would keep their incremental state outside what
  the library can state.
- Base64 and XML escaping are done by the `base64` and `quick_xml` crates,
  behind small trusted wrappers whose contracts give their results exactly (`base64_of`,
  `xml_escape`).
- The settings and language round trips (`law_settings_roundtrip`, `law_language_roundtrip`)
  are stated over the events quick_xml gives back when it reads what its writer wrote; what
  quick_xml reads from a given text is named (`xml_events_of`), not restated.
