pub mod chars;
pub mod comment;
pub mod grammar;
pub mod keywords;
pub mod lexer;
pub mod lexer_position;
pub mod predefined_names;
pub mod token;
pub mod token_kind;
pub mod token_stream;

pub use self::comment::Comment;
pub use self::comment::CommentKind;
pub use self::predefined_names::PredefinedName;
pub use self::token::Token;
pub use self::token_kind::TokenKind;
pub use self::lexer::Lexer;
