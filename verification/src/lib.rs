//! Verified core of a terminal task-list viewer.
//!
//! The library holds the parts of the viewer with real state and logic:
//! the two-level selection state machine driven by single-key commands
//! (`nav`), the pure projection of the task-list collection and the
//! current selection into render-ready pane rows (`view`), the timestamp
//! display formatting (`timefmt`), the timing decisions of the event
//! source (`tick`), and the default store contents (`store`). Terminal
//! drawing, raw-mode handling and file access sit outside the library.

pub mod model;
pub mod nav;
pub mod store;
pub mod tick;
pub mod timefmt;
pub mod view;
