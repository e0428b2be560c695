//! Utilities shared by other modules.
pub mod position;
pub mod syntax_error;
pub mod text;
pub mod text_range;

pub use self::position::Position;
pub use self::syntax_error::Message;
pub use self::syntax_error::SyntaxError;
pub use self::text_range::TextRange;
