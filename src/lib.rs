//! Orchestration logic for a media pipeline that delegates each stage to an
//! external tool: command lines, progress events, output retention and the
//! error reports of each stage.

pub mod error;
pub mod files;
pub mod progress;
pub mod root;
pub mod run;
pub mod stages;
pub mod text;
pub mod trim;
