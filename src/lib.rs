//! Pull-based token streams over a `logos` lexer, with optional byte spans.
//!
//! `Lexer` yields the bare token values of a source; `SpannedLexer` yields each
//! token together with the `Span` of bytes that it was matched from. Both stop
//! for good at the token type's end marker, which they never yield.
//!
//! A `Span` can index a `str` or a `String` directly.

pub mod lexer;
pub mod span;

pub use lexer::{match_or_end, Lexer, SpannedLexer};
pub use span::{Span, WithSpan};
