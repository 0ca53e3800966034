//! Decoding of HTML character references (`&amp;`, `&#38;`, `&#x26;`) into
//! the characters they stand for.

pub mod entities;
pub mod number;
pub mod decode;
pub mod laws;

pub use decode::{decode_html_entities, decode_with, DecodeError};
pub use entities::Entities;
