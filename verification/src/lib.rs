//! A reversible encoding between byte sequences and strings of codepoints
//! drawn from a fixed alphabet of 256 symbols.

pub mod alphabet;
pub mod codec;
pub mod emoji;
pub mod error;
pub mod reverse_index;
pub mod text;

pub use alphabet::Alphabet;
pub use codec::Base;
pub use emoji::Emoji;
pub use error::DecodeError;
pub use reverse_index::ReverseIndex;
