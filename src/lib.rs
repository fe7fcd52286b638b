//! The core of a small terminal text editor: rows of text, a document made of
//! rows, and the editor state machine that moves a cursor over the document,
//! edits it, and lays out each frame of the screen.
pub mod position;
pub mod render;
pub mod row;
pub mod document;
pub mod editor;
pub mod key;
pub mod status;
pub mod text;

pub use position::{Position, Size};
pub use render::Frame;
pub use row::Row;
pub use document::Document;
pub use editor::{Action, Editor};
pub use key::Key;
pub use status::StatusMessage;
