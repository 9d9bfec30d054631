//! Event handlers of an editor: the events each handler family understands,
//! the debounce state machine that every handler's actor runs, the hooks that
//! turn editor-wide events into handler events, and the triggers that decide
//! what a direct request forwards.

pub mod debounce;
pub mod dispatch;
pub mod events;
pub mod hooks;
pub mod laws;
