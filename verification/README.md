# xxkey

A Vietnamese input method core with its front-end decisions, verified with Verus.

- `src/engine.rs`: the key-handling engine (Telex, VNI, Simple Telex 1 and 2), with
  `src/vietnamese.rs` (spelling and code tables), `src/datatype.rs` and `src/keycode.rs`.
- `src/macro_feature.rs`, `src/smart_switch.rs`, `src/convert.rs`: macros with their text
  and binary files, the per-application input method, and code-table conversion.
- `src/app_config.rs`, `src/platform_linux/`, `src/platform_win/`, `src/ui_tray.rs`,
  `src/ui_settings.rs`: the settings file, key maps, modifier tracking, the daemons'
  handling of each key, the tray menu and the settings window's file.
- `src/text.rs`, `src/sorted_map.rs`: character-sequence helpers and the sorted map
  behind the macro and application tables.
- `app/`: the daemon program (file access, signals, the Windows hook and tray).
- `tests/`: scenarios run against the compiled library.
