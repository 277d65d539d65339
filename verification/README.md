# kiro_switch

Switching between Kiro accounts, with the logic verified by Verus.

- `src/` is the library. Each function states in its contract what it returns, over models made
  of sequences, maps and integers; the public proof functions state what holds across calls.
  - `text`, `list`, `amount`, `json`: strings, lists, double-precision amounts and JSON values.
  - `account`: accounts, settings and local credentials.
  - `endpoint`, `request`, `failure`, `region`: the requests to the Kiro services, how refusals
    are told apart, and in which regions a query is tried.
  - `identify`: which account the local IDE session belongs to.
  - `selection`, `switching`, `schedule`: which account takes over, the course of a check, and
    when the background task checks.
  - `store`, `machine`: what is written back to the list, and the machine of an account.
  - `takeover`, `notice`: how an account takes over, step by step, and what is told of it.
- `app/` is ordinary Rust around it: the HTTP client, the background task, and the trait by
  which the desktop shell gives its settings, its list of accounts and its windows.
- `tests/` runs the library with the outside crates that it calls.
