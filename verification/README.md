# herdr-focus-notify

Clickable macOS notifications for herdr agents that need attention
(`blocked`) or have finished (`done`). Clicking a notification focuses the
matching herdr pane.

The decisions of the plugin are a verified library (`src/`):

- `cli` — command-line parsing and the help text;
- `event` — turning a herdr plugin event into a notification or a dismissal,
  with the title, body and icon of the notification;
- `state` — the list of notifications still on screen, newest last, with
  one entry per pane;
- `flow` — what a run does: which command, whether to skip a notification
  for a pane the user is looking at, the away fallback, dismissals;
- `presence` — the session lock state from `ioreg` output;
- `config` — `.env` lines and the meaning of each setting;
- `delivery` — the focus script, `open` arguments and away recipients;
- `notification`, `icons`, `text` — the notification record, bundled icons,
  and exact string helpers.

`app/` is the program around it: arguments, environment, files, JSON, and
the processes it starts (herdr, the notifier, `open`, `ioreg`, `osascript`,
the away command).
