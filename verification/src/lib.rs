//! The logic of a small desktop pet that walks along the bottom edge of the
//! primary monitor: where its window may stand, how a drag position is stored
//! independently of the screen resolution, when it switches to developer mode
//! because an IDE is focused, and what its tray menu does.

pub mod ide;
pub mod placement;
pub mod session;
pub mod text;
pub mod tray;
pub mod watch;
