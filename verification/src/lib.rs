//! A scanning primitive for building lexers and parsers: a cursor over an
//! in-memory text that yields one Unicode codepoint at a time, tracks the
//! 1-based (line, column) position of the next unread codepoint across the
//! Unicode line-terminator conventions (CRLF counted as a single line
//! break), offers one codepoint of non-consuming lookahead, and extracts
//! the slice of the original text between a saved marker and the current
//! reading position.

pub mod cursor;
pub mod position;
pub mod scan;

pub use cursor::Text;
pub use position::Counter;
pub use position::Position;
