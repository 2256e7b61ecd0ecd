//! Compiles heterogeneous cells (source-code blocks, LLM prompts, LLM-driven
//! code generation) into uniform operation nodes, and plans each node's
//! invocation across the runtime its content requires, normalizing every
//! outcome into one output envelope.

pub mod cells;
pub mod compile;
pub mod config;
pub mod invoke;
pub mod llm;
pub mod node;
pub mod signature;
pub mod value;
