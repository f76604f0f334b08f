//! Staff directory: the rules by which personnel records are searched,
//! laid out as printable documents and exported.

pub mod currency;
pub mod dates;
pub mod document;
pub mod export;
pub mod paths;
pub mod schema;
pub mod search;
pub mod template;
pub mod templates;
pub mod text;
pub mod truncate;
