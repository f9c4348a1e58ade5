//! The errors a stage reports, and the message each one shows.

use vstd::prelude::*;
use crate::progress::Stage;
use crate::text::push_str;

verus! {

/// Why a stage failed.
pub enum PipelineError {
    /// The source path has no final component to take a file name from.
    InvalidPath,
    /// The stage's process could not be started; `reason` is the system's text.
    Spawn { stage: Stage, reason: String },
    /// Waiting for the stage's process to exit failed.
    Wait { stage: Stage, reason: String },
    /// The process ran and exited with a failure status; `context` holds the
    /// last lines of its output.
    StageFailure { stage: Stage, context: String },
}

pub open spec fn spawn_prefix(stage: Stage) -> Seq<char> {
    match stage {
        Stage::Processing => "Failed to start ffmpeg process: "@,
        Stage::Transcribing => "Failed to start transcription: "@,
        Stage::Exporting => "Failed to start render: "@,
        Stage::Trimming => "Failed to start ffmpeg: "@,
    }
}

pub open spec fn wait_prefix(stage: Stage) -> Seq<char> {
    match stage {
        Stage::Trimming => "ffmpeg failed: "@,
        _ => seq![],
    }
}

/// A failure report: a heading, and after it the output's last lines. The
/// trim stage runs its tool silently and reports the heading alone.
pub open spec fn failure_message(stage: Stage, context: Seq<char>) -> Seq<char> {
    match stage {
        Stage::Processing => "ffmpeg processing failed:\n"@ + context,
        Stage::Transcribing => "Transcription failed:\n"@ + context,
        Stage::Exporting => "Render failed:\n"@ + context,
        Stage::Trimming => "ffmpeg trim failed"@,
    }
}

pub open spec fn error_message(e: &PipelineError) -> Seq<char> {
    match e {
        PipelineError::InvalidPath => "Invalid file path"@,
        PipelineError::Spawn { stage, reason } => spawn_prefix(*stage) + reason@,
        PipelineError::Wait { stage, reason } => wait_prefix(*stage) + reason@,
        PipelineError::StageFailure { stage, context } => failure_message(*stage, context@),
    }
}

impl PipelineError {
    /// The text shown to the user for this error.
    pub fn message(&self) -> (r: String)
        ensures
            r@ == error_message(self),
    {
        match self {
            PipelineError::InvalidPath => String::from_str("Invalid file path"),
            PipelineError::Spawn { stage, reason } => {
                let mut r = match stage {
                    Stage::Processing => String::from_str("Failed to start ffmpeg process: "),
                    Stage::Transcribing => String::from_str("Failed to start transcription: "),
                    Stage::Exporting => String::from_str("Failed to start render: "),
                    Stage::Trimming => String::from_str("Failed to start ffmpeg: "),
                };
                push_str(&mut r, reason.as_str());
                r
            },
            PipelineError::Wait { stage, reason } => {
                let mut r = match stage {
                    Stage::Trimming => String::from_str("ffmpeg failed: "),
                    _ => String::new(),
                };
                push_str(&mut r, reason.as_str());
                r
            },
            PipelineError::StageFailure { stage, context } => {
                let mut r = match stage {
                    Stage::Processing => String::from_str("ffmpeg processing failed:\n"),
                    Stage::Transcribing => String::from_str("Transcription failed:\n"),
                    Stage::Exporting => String::from_str("Render failed:\n"),
                    Stage::Trimming => {
                        return String::from_str("ffmpeg trim failed");
                    },
                };
                push_str(&mut r, context.as_str());
                r
            },
        }
    }
}

} // verus!
