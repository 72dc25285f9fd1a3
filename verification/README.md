# hangar-core

Hangar keeps several ChatGPT/Codex accounts in one library and switches the
official Codex credentials between them. This crate is its core, written in
Verus: the functions under `src/` carry contracts that Verus proves, except
the thin trusted wrappers around calls into std and outside crates, whose
contracts say what those calls are taken to do.

## Layout

- `src/` — the verified library.
  - `account` — the account library: identities, login and re-login,
    harvest of the official credentials, switching and deletion checks,
    token refresh decisions.
  - `token_health`, `jwt`, `calendar` — token expiry, JWT claims, dates.
  - `quota`, `quota_cache`, `summary`, `recommendation` — quota parsing,
    the on-disk cache's rules, the summaries front ends show, and which
    account to recommend.
  - `oauth` — PKCE values, authorize URLs, callback checks, token and
    userinfo responses.
  - `official` — the official `auth.json` as an account is written over
    it.
  - `service`, `dto`, `operation` — the state machines of refreshes,
    switches and login sessions that native front ends poll.
  - `tui`, `tui_input`, `overview`, `screen`, `classic`, `commands`,
    `selector`, `ui` — what the terminal front ends decide and the text
    they show.
  - `updater`, `doctor`, `process`, `tray` — self-update checks, the
    offline self-check, process listings, the tray menu.
  - `json`, `text` — the views through which JSON values and strings are
    reasoned about; the calls into serde_json and std stand here.
- `tests/` — tests of the library.
- `app/` — the `hangar` program: argument parsing, files and locks, HTTP,
  the OAuth callback server, the terminal UI drawing, and the runner of
  the service's refresh and switch steps. It hands plain values
  to the library and acts on what it returns.
