//! The editing core of a small terminal text editor: a pure key map, a
//! command interpreter over a rope buffer, and the few pieces of text the
//! terminal shell needs (key decoding, status line, clipboard escape
//! sequence).

pub mod keys;
pub mod rope;
pub mod editor;
pub mod laws;
pub mod term;
pub mod status;
pub mod base64;
pub mod osc52;
pub mod session;

pub use keys::{keymap, Cmd, Key};
pub use editor::{Core, CoreState, Effect};
pub use term::{to_key, Decoded, TermCode, TermKey, TermKind, CONTROL};
pub use status::status_line;
pub use osc52::{osc52_frame, osc52_sequence};
pub use session::Action;
