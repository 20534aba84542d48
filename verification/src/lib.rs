//! Terminal input encoding and text layout for the jefe TUI: the bytes that
//! key and mouse events send to an embedded PTY, the scrollable text
//! viewport, and the text of the issue detail view.

pub mod issue_detail;
pub mod pty_encoding;
pub mod scrollable_text;
pub mod text;
