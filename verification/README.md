# dsh_config

Settings resolution for the desktop shell, verified with Verus.

- `src/accel.rs` — which npm registry and which GitHub relay prefix plugin
  installs use (`npm_registry_url`, `gh_mirror_prefix`, `AccelConfig::from_setting`).
  The deployment overrides and the detected region are passed in explicitly.
- `src/external.rs` — the deployment overrides of `desktop-config.json`.
- `src/setting.rs` — the persisted settings record, its defaults per build,
  and the harness package commit/tag fields.
- `src/text.rs` — trailing-slash and trimming helpers with their specifications.
- `src/laws.rs` — proved properties: every resolved registry URL and relay
  prefix ends with `/`, unset strategies behave as `auto`, blank custom values
  fall back to `auto`, overrides come before the region, and more.
- `app/` — unverified glue: serde forms of the records, the process-wide
  overrides loaded once at start-up, and the Tauri application store.
