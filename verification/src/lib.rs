//! Terminal rendering core of a minimal text-display tool: a controller
//! that owns raw-mode lifecycle and queued terminal commands, and a view
//! that paints a buffer of text lines into the visible rows, padding empty
//! rows with a placeholder and centering a welcome banner.

pub mod terminal;
pub mod view;
