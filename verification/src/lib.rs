//! Core of a modal (vi-like) terminal text editor: document lines, a
//! scrollable viewport, a clamped cursor, and a mode-driven key-to-action
//! state machine. Terminal I/O lives outside this crate; the core consumes
//! abstract key events and produces state transitions and render text.

pub mod buffer;
pub mod document;
pub mod editor;
pub mod laws;
pub mod render;

pub use buffer::Buffer;
pub use document::Document;
pub use document::EditError;
pub use editor::Action;
pub use editor::Editor;
pub use editor::InputEvent;
pub use editor::Key;
pub use editor::KeyInput;
pub use editor::Mode;
