//! Types and helpers behind the C interface.
pub mod bootstrap_tag;
pub mod handle;
pub mod object_map;
pub mod string;
