//! The typed tree and its semantic check.

pub mod context;
pub mod declaration;
pub mod expressions;
pub mod statements;
pub mod translation_unit;
pub mod types;

pub use context::Context;
pub use declaration::Declaration;
pub use expressions::Expression;
pub use statements::Statement;
pub use translation_unit::TranslationUnit;
pub use types::FunctionType;
pub use types::Type;
