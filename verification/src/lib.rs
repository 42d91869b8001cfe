//! Tag headers of a binary container format.
//!
//! Every element of the container starts with a tag: one variable-length
//! unsigned integer whose low four bits name the shape of the value that
//! follows and whose remaining bits give the index of the field.

pub mod byte_cursor;
pub mod cursor;
pub mod error;
pub mod tag;
pub mod tag_type;
pub mod varuint;

pub use byte_cursor::ByteCursor;
pub use cursor::Cursor;
pub use error::ParseError;
pub use tag::Tag;
pub use tag_type::TagType;
