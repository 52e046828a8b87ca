//! How a gate verdict is reported: text for the agent's stderr, or JSON,
//! SARIF or JUnit XML for CI.

pub mod json;
pub mod junit;
pub mod sarif;
pub mod terminal;
