//! What the parser needs from the library: the builders for the tree's nodes.

pub mod helpers;

pub use helpers::parse_binary;
pub use helpers::parse_if;
pub use helpers::parse_unary;
pub use helpers::parse_while;
