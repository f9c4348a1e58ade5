use media_pipeline::error::PipelineError;
use media_pipeline::files::{file_stem, sanitize_file_name};
use media_pipeline::progress::{parse_render_progress, Percent, Stage};
use media_pipeline::root::{next_root_step, project_root_fallback, RootStep};
use media_pipeline::run::{StageRun, Stream};
use media_pipeline::stages::{import_video, process_video, render_video, transcribe_video};
use media_pipeline::text::shell_quote;
use media_pipeline::trim::{seconds_arg, trim_finished, trim_video};

fn percent_value(p: Percent) -> f64 {
    match p {
        Percent::Indeterminate => -1.0,
        Percent::Active => 50.0,
        Percent::Fraction { done, total } => (done as f64 / total as f64) * 100.0,
    }
}

fn run_with_lines(stage: Stage, lines: &[(Stream, &str)]) -> StageRun {
    let mut run = StageRun::new(stage, "out.mp4".to_string());
    for (stream, text) in lines {
        run.on_line(*stream, text.to_string());
    }
    run
}

#[test]
fn render_progress_reads_frame_count() {
    let p = parse_render_progress("Rendered 45/200");
    assert_eq!(p, Percent::Fraction { done: 45, total: 200 });
    assert_eq!(percent_value(p), 22.5);
}

#[test]
fn render_progress_without_numbers_is_indeterminate() {
    assert_eq!(parse_render_progress("no numbers here"), Percent::Indeterminate);
}

#[test]
fn render_progress_zero_total_is_indeterminate() {
    assert_eq!(parse_render_progress("0/0"), Percent::Indeterminate);
    assert_eq!(parse_render_progress("Rendered 12/0 frames"), Percent::Indeterminate);
}

#[test]
fn render_progress_takes_first_complete_match() {
    assert_eq!(
        parse_render_progress("step 3/ then 10/20 and 5/6"),
        Percent::Fraction { done: 10, total: 20 }
    );
    assert_eq!(parse_render_progress("x123/4567y"), Percent::Fraction { done: 123, total: 4567 });
}

#[test]
fn render_progress_beyond_u64_is_indeterminate() {
    assert_eq!(parse_render_progress("99999999999999999999/5"), Percent::Indeterminate);
}

#[test]
fn failure_reports_last_five_lines() {
    let texts = ["l1", "l2", "l3", "l4", "l5", "l6", "l7", "l8", "l9", "l10"];
    let lines: Vec<(Stream, &str)> = texts
        .iter()
        .enumerate()
        .map(|(i, t)| (if i % 2 == 0 { Stream::Stdout } else { Stream::Stderr }, *t))
        .collect();
    let run = run_with_lines(Stage::Processing, &lines);
    match run.finish(false) {
        Err(e) => {
            match &e {
                PipelineError::StageFailure { stage, context } => {
                    assert_eq!(*stage, Stage::Processing);
                    assert_eq!(context, "l6\nl7\nl8\nl9\nl10");
                }
                _ => panic!("expected a stage failure"),
            }
            assert_eq!(e.message(), "ffmpeg processing failed:\nl6\nl7\nl8\nl9\nl10");
        }
        Ok(_) => panic!("a failed run must not succeed"),
    }
}

#[test]
fn failure_with_few_lines_reports_all() {
    let run = run_with_lines(Stage::Transcribing, &[(Stream::Stderr, "a"), (Stream::Stdout, "b")]);
    assert_eq!(run.failure_context(), "a\nb");
    let empty = run_with_lines(Stage::Exporting, &[]);
    assert_eq!(empty.failure_context(), "");
    match empty.finish(false) {
        Err(e) => assert_eq!(e.message(), "Render failed:\n"),
        Ok(_) => panic!("a failed run must not succeed"),
    }
}

#[test]
fn streaming_keeps_every_line() {
    let mut run = StageRun::new(Stage::Transcribing, "c.json".to_string());
    let arrivals = [
        (Stream::Stdout, "o1"),
        (Stream::Stderr, "e1"),
        (Stream::Stdout, "o2"),
        (Stream::Stdout, "o3"),
        (Stream::Stderr, "e2"),
    ];
    let mut events = Vec::new();
    for (s, t) in arrivals.iter() {
        events.push(run.on_line(*s, t.to_string()));
    }
    assert_eq!(events.len(), 5);
    assert_eq!(run.lines.len(), 5);
    for (e, (_, t)) in events.iter().zip(arrivals.iter()) {
        assert_eq!(e.stage, Stage::Transcribing);
        assert_eq!(e.percent, Percent::Active);
        assert_eq!(e.message, *t);
    }
    let out: Vec<&str> = run
        .lines
        .iter()
        .filter(|l| l.stream == Stream::Stdout)
        .map(|l| l.text.as_str())
        .collect();
    let err: Vec<&str> = run
        .lines
        .iter()
        .filter(|l| l.stream == Stream::Stderr)
        .map(|l| l.text.as_str())
        .collect();
    assert_eq!(out, vec!["o1", "o2", "o3"]);
    assert_eq!(err, vec!["e1", "e2"]);
}

#[test]
fn render_lines_carry_frame_progress() {
    let mut run = StageRun::new(Stage::Exporting, "final.mp4".to_string());
    let e = run.on_line(Stream::Stderr, "Rendered 50/100".to_string());
    assert_eq!(e.percent, Percent::Fraction { done: 50, total: 100 });
    let e = run.on_line(Stream::Stdout, "Bundling".to_string());
    assert_eq!(e.percent, Percent::Indeterminate);
    match run.finish(true) {
        Ok((done, path)) => {
            assert_eq!(path, "final.mp4");
            assert_eq!(done.percent, Percent::Fraction { done: 1, total: 1 });
            assert_eq!(done.message, "Render complete!");
            assert_eq!(done.stage.label(), "exporting");
        }
        Err(_) => panic!("a successful run must succeed"),
    }
}

#[test]
fn trim_arguments_in_seconds() {
    let args = trim_video("in.mp4", 1500, 4250, "out.mp4");
    assert_eq!(
        args,
        vec![
            "-y", "-ss", "1.500", "-i", "in.mp4", "-t", "2.750", "-c", "copy",
            "-avoid_negative_ts", "make_zero", "out.mp4"
        ]
    );
}

#[test]
fn seconds_formatting() {
    assert_eq!(seconds_arg(0), "0.000");
    assert_eq!(seconds_arg(7), "0.007");
    assert_eq!(seconds_arg(61_040), "61.040");
    assert_eq!(seconds_arg(-1500), "-1.500");
    assert_eq!(seconds_arg(18_446_744_073_709_551_615), "18446744073709551.615");
    let args = trim_video("a", 3000, 2000, "b");
    assert_eq!(args[6], "-1.000");
}

#[test]
fn trim_outcome() {
    assert_eq!(trim_finished(true, "clip.mp4".to_string()).ok(), Some("clip.mp4".to_string()));
    match trim_finished(false, "clip.mp4".to_string()) {
        Err(e) => assert_eq!(e.message(), "ffmpeg trim failed"),
        Ok(_) => panic!("a failed cut must not succeed"),
    }
}

#[test]
fn shell_quote_escapes_single_quotes() {
    assert_eq!(shell_quote("plain"), "'plain'");
    assert_eq!(shell_quote("it's"), "'it'\\''s'");
    assert_eq!(shell_quote(""), "''");
    assert_eq!(shell_quote("'; rm -rf /"), "''\\''; rm -rf /'");
}

#[test]
fn render_command_escapes_props() {
    let plan = render_video("out/final.mp4", r#"{"title":"Don't stop"}"#);
    assert_eq!(
        plan.command,
        r#"npx remotion render CaptionedClip 'out/final.mp4' --props '{"title":"Don'\''t stop"}'"#
    );
    assert_eq!(plan.start.message, "Starting render...");
    assert_eq!(plan.start.percent, Percent::Fraction { done: 0, total: 1 });
    assert_eq!(plan.run.result, "out/final.mp4");
    assert_eq!(plan.run.stage, Stage::Exporting);
}

#[test]
fn process_plan() {
    let plan = process_video("/proj", "/videos/my clip.mov");
    assert_eq!(plan.command, "npx tsx scripts/process-videos.ts '/videos/my clip.mov'");
    assert_eq!(plan.start.message, "Re-encoding /videos/my clip.mov...");
    assert_eq!(plan.start.stage.label(), "processing");
    assert_eq!(plan.run.result, "/proj/public/videos/my clip.mp4");
    assert!(plan.run.lines.is_empty());
}

#[test]
fn transcribe_plan_defaults() {
    let plan = transcribe_video("/proj", "clip.mp4", None, None, None, None, None, None);
    assert_eq!(
        plan.command,
        "WHISPER_MODEL='medium' WHISPER_LANG='es' WHISPER_BEAM_SIZE=5 WHISPER_BEST_OF=5 \
         WHISPER_MAX_LEN=40 WHISPER_SPLIT_ON_WORD=true npx tsx scripts/transcribe.ts 'clip.mp4'"
    );
    assert_eq!(plan.run.result, "/proj/public/videos/captions/clip.json");
    assert_eq!(plan.start.message, "Transcribing clip.mp4...");
}

#[test]
fn transcribe_plan_settings() {
    let plan = transcribe_video(
        "/proj",
        "/v/a.b.mp4",
        Some("large-v3".to_string()),
        Some("en".to_string()),
        Some(8),
        Some(3),
        Some(0),
        Some(false),
    );
    assert_eq!(
        plan.command,
        "WHISPER_MODEL='large-v3' WHISPER_LANG='en' WHISPER_BEAM_SIZE=8 WHISPER_BEST_OF=3 \
         WHISPER_MAX_LEN=0 WHISPER_SPLIT_ON_WORD=false npx tsx scripts/transcribe.ts '/v/a.b.mp4'"
    );
    assert_eq!(plan.run.result, "/proj/public/videos/captions/a.b.json");
}

#[test]
fn sanitize_replaces_special_characters() {
    assert_eq!(sanitize_file_name("my video (1).mp4"), "my_video__1_.mp4");
    assert_eq!(sanitize_file_name("clip.final.mov"), "clip_final.mov");
    assert_eq!(sanitize_file_name("café-été_2.mov"), "café-été_2.mov");
    assert_eq!(sanitize_file_name("a.b c"), "a.b_c");
}

#[test]
fn sanitize_names_without_extension() {
    assert_eq!(sanitize_file_name("noext"), "noext.");
    assert_eq!(sanitize_file_name(".hidden"), "_hidden.");
    assert_eq!(sanitize_file_name(".."), "__.");
    assert_eq!(sanitize_file_name("trailing."), "trailing.");
}

#[test]
fn sanitize_is_idempotent() {
    for name in ["my video (1).mp4", "noext", ".hidden", "a.b.c d", "x y", "..", "é!.m p4"] {
        let once = sanitize_file_name(name);
        assert_eq!(sanitize_file_name(&once), once);
        assert_eq!(once.matches('.').count(), 1);
        assert!(once
            .chars()
            .all(|c| c == '.' || c == '-' || c == '_' || c.is_alphanumeric()));
    }
}

#[test]
fn import_takes_sanitized_file_name() {
    assert_eq!(import_video("/home/user/My Clip!.mov").ok(), Some("My_Clip_.mov".to_string()));
    assert!(matches!(import_video(""), Err(PipelineError::InvalidPath)));
    assert!(matches!(import_video("/tmp/.."), Err(PipelineError::InvalidPath)));
}

#[test]
fn stem_of_path() {
    assert_eq!(file_stem("/a/b/clip.mp4"), "clip");
    assert_eq!(file_stem("/a/b/archive.tar.gz"), "archive.tar");
    assert_eq!(file_stem("/a/.profile"), ".profile");
    assert_eq!(file_stem("/"), "");
}

#[test]
fn error_messages() {
    let spawn = PipelineError::Spawn { stage: Stage::Transcribing, reason: "not found".to_string() };
    assert_eq!(spawn.message(), "Failed to start transcription: not found");
    let spawn = PipelineError::Spawn { stage: Stage::Processing, reason: "denied".to_string() };
    assert_eq!(spawn.message(), "Failed to start ffmpeg process: denied");
    let wait = PipelineError::Wait { stage: Stage::Trimming, reason: "gone".to_string() };
    assert_eq!(wait.message(), "ffmpeg failed: gone");
    let wait = PipelineError::Wait { stage: Stage::Exporting, reason: "gone".to_string() };
    assert_eq!(wait.message(), "gone");
    assert_eq!(PipelineError::InvalidPath.message(), "Invalid file path");
}

#[test]
fn root_search_steps() {
    match next_root_step("/p/src-tauri", "/p/src-tauri", true) {
        RootStep::Found(r) => assert_eq!(r, "/p/src-tauri"),
        RootStep::Check(_) => panic!("a marked directory is the root"),
    }
    match next_root_step("/p/src-tauri", "/p/src-tauri", false) {
        RootStep::Check(d) => assert_eq!(d, "/p"),
        RootStep::Found(_) => panic!("the parent is checked next"),
    }
    match next_root_step("/p/src-tauri", "/", false) {
        RootStep::Found(r) => assert_eq!(r, "/p"),
        RootStep::Check(_) => panic!("the top has no parent"),
    }
    match next_root_step("/x/y", "/", false) {
        RootStep::Found(r) => assert_eq!(r, "/x/y"),
        RootStep::Check(_) => panic!("the top has no parent"),
    }
}

#[test]
fn root_fallback() {
    assert_eq!(project_root_fallback("/home/me/app/src-tauri"), "/home/me/app");
    assert_eq!(project_root_fallback("/home/me/app/src-tauri-old"), "/home/me/app/src-tauri-old");
    assert_eq!(project_root_fallback("/home/me/app"), "/home/me/app");
}
