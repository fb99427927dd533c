pub mod runtime;
pub mod span;
pub mod latex;
pub mod ast;
pub mod scope;
pub mod builtins;
pub mod error;
pub mod compiler;
pub mod laws;
