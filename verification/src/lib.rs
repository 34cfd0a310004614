//! Native desktop-shell integration: resolving a file's shell icon into a
//! portable PNG data URL, and driving an OS drag-and-drop session for a
//! multi-file selection.
//!
//! All shell and graphics operations go through the [`shell::ShellPort`]
//! trait, so the resource discipline (every acquired handle is released on
//! every exit path) and the session logic are verified once, for every port.

pub mod codec;
pub mod drag;
pub mod errors;
pub mod icon;
pub mod shell;
pub mod sim;
