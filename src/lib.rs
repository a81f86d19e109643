//! Execution orchestration engine: the state machines, registries and
//! polling rules that drive coding-agent attempts against repositories.

pub mod text;
pub mod types;
pub mod naming;
pub mod paths;
pub mod ci;
pub mod registry;
pub mod records;
pub mod prompts;
pub mod engine;
pub mod agent;
pub mod worktree;
pub mod tokens;
pub mod diff;
