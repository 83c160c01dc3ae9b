# fourdy_client

The verified core of a Windows desktop companion for a hosted telephony web
client: it cleans phone numbers taken from the clipboard, a selection or a
`tel:` link, holds the configuration with its defaults and load checks, looks
up translations, and makes the decisions behind the tray icon, the global
hotkeys, the web-client window and the call pop-up.

Layout:

- `src/` — the library, verified with Verus. Each module states its
  behaviour in `requires`/`ensures` over spec functions; properties that span
  several functions are proof functions named `law_*`.
  - `text`, `digits`, `wide` — character helpers, dial-string filters, UTF-16.
  - `search` — regular-expression search through the `regex` crate.
  - `phone`, `clipboard` — the two number normalisers.
  - `config` — configuration types, defaults, load outcome, error messages.
  - `i18n`, `translations` — language detection, tables, `t`.
  - `inject`, `webclient`, `hotkeys`, `tray`, `registry`, `popup`, `mailto` —
    scripts, window reactions, hotkey bindings, tray menu, `tel:` handler
    registration, pop-up hit testing and the call-back mail link.
- `tests/` — unit tests run against the compiled library.
- `app/` — the unverified shell: file and environment access, JSON via serde,
  the process-wide translation state, and the Windows-only user interface
  (Tauri, Win32), which calls into the library for every decision.
