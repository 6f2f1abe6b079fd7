pub mod analyzer;
pub mod ast;
pub mod builtins;
pub mod errors;
pub mod evaluation;
pub mod interpreter;
pub mod scopes;
pub mod state;
pub mod typed_ast;
pub mod typing;
