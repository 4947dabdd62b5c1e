//! A one-shot remote command runner: materialise files into a private
//! workspace, run a shell command there under a timeout, collect its output
//! and always remove the workspace.
//!
//! The library holds the rules of an execution (path validation, workspace
//! naming, the order of the steps and the shape of the result) as verified
//! code; the program around it performs the file system and process work.

pub mod paths;
pub mod naming;
pub mod types;
pub mod decode;
pub mod engine;
pub mod laws;
