//! Adopting a repository's existing gates: detection, the plan, and how it
//! is shown.

pub mod detect;
pub mod detect_agents;
pub mod detect_husky;
pub mod detect_lefthook;
pub mod detect_lint_staged;
pub mod mode;
pub mod plan;
pub mod render;
