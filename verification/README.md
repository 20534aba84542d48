# jefe_ui

Verified core of jefe's terminal front end.

- `src/pty_encoding.rs` — the bytes that key events (xterm sequences,
  control characters, Alt prefixes) and fullscreen mouse events (SGR reports)
  send to an embedded PTY, and the paste-Enter suppression flags.
- `src/scrollable_text.rs` — scrollbar thumb geometry and the window of lines
  a scrollable text viewport shows.
- `src/issue_detail.rs` — the issue detail pane: metadata header, and the
  scrollable body / comments / new-comment text with the editing caret.
- `src/text.rs` — line splitting, joining, UTF-8 widths and decimal digits.

`app/` holds the iocraft side: conversions from iocraft events to the
library's event types, and the `ScrollableText` and `IssueDetailView`
components that render the library's views.
