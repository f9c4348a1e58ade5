//! What each stage starts with: the event that announces it, the shell
//! command line that runs its tool, and the run that follows its output.

use vstd::prelude::*;
use crate::error::PipelineError;
use crate::files::{
    file_name_of, file_stem, join_path, joined_path, path_file_name, path_stem,
    sanitize_file_name, sanitized_file_name,
};
use crate::progress::{Percent, PipelineProgress, ProgressView, Stage};
use crate::run::{RunView, StageRun};
use crate::text::{decimal, push_decimal, push_str, shell_quote, shell_quoted};

verus! {

/// A stage ready to start.
pub struct StagePlan {
    /// The event sent before the tool starts.
    pub start: PipelineProgress,
    /// The shell command line that runs the tool, from the project root.
    pub command: String,
    /// The run that follows the tool's output.
    pub run: StageRun,
}

pub open spec fn start_event(stage: Stage, message: Seq<char>) -> ProgressView {
    ProgressView { stage, percent: Percent::Fraction { done: 0, total: 1 }, message }
}

/// The file name under which `import_video` stores the file at `source_path`,
/// in the project's `videos` directory.
pub fn import_video(source_path: &str) -> (r: Result<String, PipelineError>)
    ensures
        match file_name_of(source_path@) {
            Some(name) => r matches Ok(f) && f@ == sanitized_file_name(name),
            None => r matches Err(PipelineError::InvalidPath),
        },
{
    match path_file_name(source_path) {
        Some(name) => Ok(sanitize_file_name(name.as_str())),
        None => Err(PipelineError::InvalidPath),
    }
}

/// `<dir>/<stem of source><ext>` under the project root.
pub open spec fn output_path(root: Seq<char>, dir: Seq<char>, source: Seq<char>, ext: Seq<char>) -> Seq<char> {
    joined_path(joined_path(root, dir), path_stem(source) + ext)
}

fn derived_path(root: &str, dir: &str, source: &str, ext: &str) -> (r: String)
    ensures
        r@ == output_path(root@, dir@, source@, ext@),
{
    let mut name = file_stem(source);
    push_str(&mut name, ext);
    let base = join_path(root, dir);
    join_path(base.as_str(), name.as_str())
}

pub open spec fn process_command(input_file: Seq<char>) -> Seq<char> {
    "npx tsx scripts/process-videos.ts "@ + shell_quoted(input_file)
}

/// Re-encodes `input_file` into `public/videos/<stem>.mp4`.
pub fn process_video(root: &str, input_file: &str) -> (p: StagePlan)
    ensures
        p.start@ == start_event(Stage::Processing, "Re-encoding "@ + input_file@ + "..."@),
        p.command@ == process_command(input_file@),
        p.run@ == (RunView {
            stage: Stage::Processing,
            lines: seq![],
            result: output_path(root@, "public/videos"@, input_file@, ".mp4"@),
        }),
{
    let mut message = String::from_str("Re-encoding ");
    push_str(&mut message, input_file);
    push_str(&mut message, "...");
    let mut command = String::from_str("npx tsx scripts/process-videos.ts ");
    let quoted = shell_quote(input_file);
    push_str(&mut command, quoted.as_str());
    let result = derived_path(root, "public/videos", input_file, ".mp4");
    StagePlan {
        start: PipelineProgress { stage: Stage::Processing, percent: Percent::zero(), message },
        command,
        run: StageRun::new(Stage::Processing, result),
    }
}

pub open spec fn bool_text(b: bool) -> Seq<char> {
    if b {
        "true"@
    } else {
        "false"@
    }
}

pub open spec fn text_or(o: Option<String>, default: Seq<char>) -> Seq<char> {
    match o {
        Some(s) => s@,
        None => default,
    }
}

pub open spec fn number_or(o: Option<u32>, default: nat) -> nat {
    match o {
        Some(n) => n as nat,
        None => default,
    }
}

/// The transcription command: the settings in the environment, each left
/// out falling back to its default (model `medium`, language `es`, beam size
/// 5, best-of 5, segments of at most 40 characters, split on words).
pub open spec fn transcribe_command(
    video_file: Seq<char>,
    whisper_model: Option<String>,
    language: Option<String>,
    beam_size: Option<u32>,
    best_of: Option<u32>,
    max_len: Option<u32>,
    split_on_word: Option<bool>,
) -> Seq<char> {
    "WHISPER_MODEL="@ + shell_quoted(text_or(whisper_model, "medium"@)) + " WHISPER_LANG="@
        + shell_quoted(text_or(language, "es"@)) + " WHISPER_BEAM_SIZE="@ + decimal(
        number_or(beam_size, 5),
    ) + " WHISPER_BEST_OF="@ + decimal(number_or(best_of, 5)) + " WHISPER_MAX_LEN="@ + decimal(
        number_or(max_len, 40),
    ) + " WHISPER_SPLIT_ON_WORD="@ + bool_text(
        match split_on_word {
            Some(b) => b,
            None => true,
        },
    ) + " npx tsx scripts/transcribe.ts "@ + shell_quoted(video_file)
}

/// Transcribes `video_file` into `public/videos/captions/<stem>.json`.
pub fn transcribe_video(
    root: &str,
    video_file: &str,
    whisper_model: Option<String>,
    language: Option<String>,
    beam_size: Option<u32>,
    best_of: Option<u32>,
    max_len: Option<u32>,
    split_on_word: Option<bool>,
) -> (p: StagePlan)
    ensures
        p.start@ == start_event(Stage::Transcribing, "Transcribing "@ + video_file@ + "..."@),
        p.command@ == transcribe_command(
            video_file@,
            whisper_model,
            language,
            beam_size,
            best_of,
            max_len,
            split_on_word,
        ),
        p.run@ == (RunView {
            stage: Stage::Transcribing,
            lines: seq![],
            result: output_path(root@, "public/videos/captions"@, video_file@, ".json"@),
        }),
{
    let mut message = String::from_str("Transcribing ");
    push_str(&mut message, video_file);
    push_str(&mut message, "...");
    let model = match &whisper_model {
        Some(m) => shell_quote(m.as_str()),
        None => shell_quote("medium"),
    };
    let lang = match &language {
        Some(l) => shell_quote(l.as_str()),
        None => shell_quote("es"),
    };
    let mut command = String::from_str("WHISPER_MODEL=");
    push_str(&mut command, model.as_str());
    push_str(&mut command, " WHISPER_LANG=");
    push_str(&mut command, lang.as_str());
    push_str(&mut command, " WHISPER_BEAM_SIZE=");
    push_decimal(&mut command, beam_size.unwrap_or(5) as u128);
    push_str(&mut command, " WHISPER_BEST_OF=");
    push_decimal(&mut command, best_of.unwrap_or(5) as u128);
    push_str(&mut command, " WHISPER_MAX_LEN=");
    push_decimal(&mut command, max_len.unwrap_or(40) as u128);
    push_str(&mut command, " WHISPER_SPLIT_ON_WORD=");
    if split_on_word.unwrap_or(true) {
        push_str(&mut command, "true");
    } else {
        push_str(&mut command, "false");
    }
    push_str(&mut command, " npx tsx scripts/transcribe.ts ");
    let video = shell_quote(video_file);
    push_str(&mut command, video.as_str());
    let result = derived_path(root, "public/videos/captions", video_file, ".json");
    StagePlan {
        start: PipelineProgress { stage: Stage::Transcribing, percent: Percent::zero(), message },
        command,
        run: StageRun::new(Stage::Transcribing, result),
    }
}

pub open spec fn render_command(output_path: Seq<char>, props_json: Seq<char>) -> Seq<char> {
    "npx remotion render CaptionedClip "@ + shell_quoted(output_path) + " --props "@
        + shell_quoted(props_json)
}

/// Renders the captioned clip into `output_path`, with `props_json` as the
/// composition's properties; the result is `output_path` itself.
pub fn render_video(output_path: &str, props_json: &str) -> (p: StagePlan)
    ensures
        p.start@ == start_event(Stage::Exporting, "Starting render..."@),
        p.command@ == render_command(output_path@, props_json@),
        p.run@ == (RunView { stage: Stage::Exporting, lines: seq![], result: output_path@ }),
{
    let message = String::from_str("Starting render...");
    let mut command = String::from_str("npx remotion render CaptionedClip ");
    let out = shell_quote(output_path);
    push_str(&mut command, out.as_str());
    push_str(&mut command, " --props ");
    let props = shell_quote(props_json);
    push_str(&mut command, props.as_str());
    StagePlan {
        start: PipelineProgress { stage: Stage::Exporting, percent: Percent::zero(), message },
        command,
        run: StageRun::new(Stage::Exporting, String::from_str(output_path)),
    }
}

} // verus!
