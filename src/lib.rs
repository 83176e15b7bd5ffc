//! Parsing of treeish expressions: a literal path, a glob pattern, or a
//! pattern anchored at an explicit path, written `<path>::<pattern>`.
//!
//! Only the first `::` separates; there is no way to escape it inside a
//! pattern.
pub mod glob;
pub mod laws;
pub mod model;
pub mod parse;
pub mod text;
pub mod treeish;

pub use crate::parse::{parse, ParseError, Partitioned};
pub use crate::text::Text;
pub use crate::treeish::{
    BuildError, BuildErrorKind, RuleError, Treeish, TreeishGlob, TreeishPath, Unrooted,
};
