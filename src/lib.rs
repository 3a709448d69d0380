//! Chunk rendering core of a module bundler: dependency classification,
//! constant folding of logical expressions into rewrite instructions, the
//! code generation cache, chunk assembly, content hashing and runtime module
//! synthesis.

pub mod dependency_type;
pub mod text;
pub mod logic_expr;
pub mod code_generation;
pub mod hash;
pub mod chunk_render;
pub mod runtime_module;
pub mod plugin;
