//! Cutting a range out of a video in stream-copy mode: the transcoder's
//! arguments, and what its exit status means.

use vstd::prelude::*;
use crate::error::PipelineError;
use crate::progress::Stage;
use crate::text::{decimal, digit_char, push_char, push_decimal};

verus! {

/// Milliseconds written as seconds with three decimals, with a minus sign
/// before a negative value.
pub open spec fn seconds_text(ms: int) -> Seq<char> {
    let a = if ms < 0 {
        -ms
    } else {
        ms
    };
    let sign = if ms < 0 {
        seq!['-']
    } else {
        seq![]
    };
    sign + decimal((a / 1000) as nat) + seq![
        '.',
        digit_char(((a % 1000) / 100) as nat),
        digit_char(((a % 100) / 10) as nat),
        digit_char((a % 10) as nat),
    ]
}

/// `ms` as seconds with millisecond precision, as the transcoder reads a time.
pub fn seconds_arg(ms: i128) -> (r: String)
    requires
        ms > i128::MIN,
    ensures
        r@ == seconds_text(ms as int),
{
    let mut r = String::new();
    let a: u128 = if ms < 0 {
        push_char(&mut r, '-');
        (-ms) as u128
    } else {
        ms as u128
    };
    push_decimal(&mut r, a / 1000);
    push_char(&mut r, '.');
    let d1: u8 = ((a % 1000) / 100) as u8;
    let d2: u8 = ((a % 100) / 10) as u8;
    let d3: u8 = (a % 10) as u8;
    push_char(&mut r, (d1 + 48) as char);
    push_char(&mut r, (d2 + 48) as char);
    push_char(&mut r, (d3 + 48) as char);
    assert(r@ =~= seconds_text(ms as int));
    r
}

pub open spec fn string_views(v: Seq<String>) -> Seq<Seq<char>> {
    v.map_values(|s: String| s@)
}

/// The transcoder's arguments for a cut from `start_ms` to `end_ms`:
/// overwrite the output, seek to the start, keep the duration, copy the
/// streams without re-encoding and shift timestamps to begin at zero.
pub open spec fn trim_args(input_path: Seq<char>, start_ms: int, end_ms: int, output_path: Seq<char>) -> Seq<Seq<char>> {
    seq![
        "-y"@,
        "-ss"@,
        seconds_text(start_ms),
        "-i"@,
        input_path,
        "-t"@,
        seconds_text(end_ms - start_ms),
        "-c"@,
        "copy"@,
        "-avoid_negative_ts"@,
        "make_zero"@,
        output_path,
    ]
}

/// The transcoder's arguments that cut `start_ms..end_ms` (milliseconds) of
/// `input_path` into `output_path`.
pub fn trim_video(input_path: &str, start_ms: i64, end_ms: i64, output_path: &str) -> (r: Vec<String>)
    ensures
        string_views(r@) == trim_args(input_path@, start_ms as int, end_ms as int, output_path@),
{
    let duration: i128 = end_ms as i128 - start_ms as i128;
    let mut r: Vec<String> = Vec::new();
    r.push(String::from_str("-y"));
    r.push(String::from_str("-ss"));
    r.push(seconds_arg(start_ms as i128));
    r.push(String::from_str("-i"));
    r.push(String::from_str(input_path));
    r.push(String::from_str("-t"));
    r.push(seconds_arg(duration));
    r.push(String::from_str("-c"));
    r.push(String::from_str("copy"));
    r.push(String::from_str("-avoid_negative_ts"));
    r.push(String::from_str("make_zero"));
    r.push(String::from_str(output_path));
    assert(string_views(r@) =~= trim_args(input_path@, start_ms as int, end_ms as int, output_path@));
    r
}

/// What the cut's exit status means: the output path on success, the trim
/// failure otherwise (the tool runs silently, so there is no output to report).
pub fn trim_finished(success: bool, output_path: String) -> (r: Result<String, PipelineError>)
    ensures
        success ==> (r matches Ok(p) && p@ == output_path@),
        !success ==> (r matches Err(PipelineError::StageFailure { stage, context }) && stage
            == Stage::Trimming && context@ == Seq::<char>::empty()),
{
    if success {
        Ok(output_path)
    } else {
        Err(PipelineError::StageFailure { stage: Stage::Trimming, context: String::new() })
    }
}

} // verus!
