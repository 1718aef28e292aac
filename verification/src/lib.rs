//! A framework for breaking down token streams in procedural macros.
//!
//! Token streams are parsed by types implementing [`FromStream`], and matched
//! against patterns implementing [`MatchStream`]. Both work on a [`Stream`]
//! of [`TokenTree`]s or on a non-consuming [`StreamView`] of one.
pub mod error;
pub mod impls;
pub mod laws;
pub mod stream;
pub mod text;
pub mod tokens;
pub mod token_laws;
pub mod tuple_laws;
pub mod tuples;
pub mod utils;

pub use error::{Error, ErrorText};
pub use stream::{
    DiagDisplay, FromStream, MatchResult, MatchStream, Stream, StreamLike, StreamView,
};
pub use tokens::{
    Delimiter, TokenGroup, TokenIdent, TokenLiteral, TokenPunct, TokenStream, TokenTree,
};
pub use utils::cut::Cut;
pub use utils::delimited::Delimited;
pub use utils::greedy::Greedy;
pub use utils::group::{Braces, Brackets, Group, GroupKind, Parens};
pub use utils::ident::Ident;
pub use utils::literal::Literal;
pub use utils::maybe::Maybe;
pub use utils::neg::Neg;
pub use utils::punct;
pub use utils::puncts::Punct;
pub use utils::rep::{RepeatAny, RepeatAtLeast, RepeatAtMost, RepeatPlus, RepeatRange};
