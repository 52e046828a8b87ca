//! klasp — gate logic, recipe output parsing and report rendering.

pub mod adopt;
pub mod cli;
pub mod cmd;
pub mod gate;
pub mod gate_run;
pub mod git;
pub mod json;
pub mod model;
pub mod output;
pub mod sources;
pub mod text;
pub mod xml;
