//! Progress events and the percent they carry, with the frame-progress
//! parser for the renderer's diagnostic lines.

use vstd::prelude::*;

verus! {

/// A stage of the pipeline.
#[derive(Clone, Copy, Debug, PartialEq, Eq, Structural)]
pub enum Stage {
    Processing,
    Transcribing,
    Exporting,
    Trimming,
}

pub open spec fn stage_label(stage: Stage) -> Seq<char> {
    match stage {
        Stage::Processing => seq!['p', 'r', 'o', 'c', 'e', 's', 's', 'i', 'n', 'g'],
        Stage::Transcribing => seq!['t', 'r', 'a', 'n', 's', 'c', 'r', 'i', 'b', 'i', 'n', 'g'],
        Stage::Exporting => seq!['e', 'x', 'p', 'o', 'r', 't', 'i', 'n', 'g'],
        Stage::Trimming => seq!['t', 'r', 'i', 'm', 'm', 'i', 'n', 'g'],
    }
}

impl Stage {
    /// The label under which the stage's events are sent.
    pub fn label(&self) -> (r: String)
        ensures
            r@ == stage_label(*self),
    {
        let r = match self {
            Stage::Processing => String::from_str("processing"),
            Stage::Transcribing => String::from_str("transcribing"),
            Stage::Exporting => String::from_str("exporting"),
            Stage::Trimming => String::from_str("trimming"),
        };
        proof {
            reveal_strlit("processing");
            reveal_strlit("transcribing");
            reveal_strlit("exporting");
            reveal_strlit("trimming");
        }
        assert(r@ =~= stage_label(*self));
        r
    }
}

/// How far a stage has come.
#[derive(Clone, Copy, Debug, PartialEq, Eq, Structural)]
pub enum Percent {
    /// Nothing is known of the stage's progress.
    Indeterminate,
    /// The stage is at work; how far it has come is not known.
    Active,
    /// `done` out of `total`: `100 * done / total` percent.
    Fraction { done: u64, total: u64 },
}

impl Percent {
    pub open spec fn wf(&self) -> bool {
        self matches Percent::Fraction { total, .. } ==> total > 0
    }

    /// Nothing done yet.
    pub fn zero() -> (r: Percent)
        ensures
            r == (Percent::Fraction { done: 0, total: 1 }),
    {
        Percent::Fraction { done: 0, total: 1 }
    }

    /// All done.
    pub fn complete() -> (r: Percent)
        ensures
            r == (Percent::Fraction { done: 1, total: 1 }),
    {
        Percent::Fraction { done: 1, total: 1 }
    }
}

/// One progress event: the stage, how far it has come and a message.
pub struct PipelineProgress {
    pub stage: Stage,
    pub percent: Percent,
    pub message: String,
}

pub struct ProgressView {
    pub stage: Stage,
    pub percent: Percent,
    pub message: Seq<char>,
}

impl View for PipelineProgress {
    type V = ProgressView;

    open spec fn view(&self) -> ProgressView {
        ProgressView { stage: self.stage, percent: self.percent, message: self.message@ }
    }
}

pub open spec fn is_digit(c: char) -> bool {
    '0' <= c && c <= '9'
}

/// The length of the run of ASCII digits that starts at `i`.
pub open spec fn digit_run(s: Seq<char>, i: int) -> nat
    decreases s.len() - i,
{
    if 0 <= i < s.len() && is_digit(s[i]) {
        1 + digit_run(s, i + 1)
    } else {
        0
    }
}

/// Whether `digits/digits` starts at `i`.
pub open spec fn frame_match_at(s: Seq<char>, i: int) -> bool {
    let j = i + digit_run(s, i);
    &&& digit_run(s, i) > 0
    &&& j < s.len()
    &&& s[j] == '/'
    &&& digit_run(s, j + 1) > 0
}

/// The first `digits/digits` at or after `i`, as its two runs of digits,
/// each taken as long as it goes.
pub open spec fn frame_match_from(s: Seq<char>, i: int) -> Option<(Seq<char>, Seq<char>)>
    decreases s.len() - i,
{
    if i < 0 || i >= s.len() {
        None
    } else if frame_match_at(s, i) {
        let j = i + digit_run(s, i);
        Some((s.subrange(i, j), s.subrange(j + 1, j + 1 + digit_run(s, j + 1))))
    } else {
        frame_match_from(s, i + 1)
    }
}

pub open spec fn first_frame_match(s: Seq<char>) -> Option<(Seq<char>, Seq<char>)> {
    frame_match_from(s, 0)
}

/// Relies on regex_lite's `Regex::captures` with the pattern `(\d+)/(\d+)`:
/// the leftmost match, each `+` greedy, `\d` the ASCII digits; the two
/// groups of that match.
#[verifier::external_body]
fn find_frame_counts(line: &str) -> (r: Option<(String, String)>)
    ensures
        first_frame_match(line@) == (match r {
            Some((a, b)) => Some((a@, b@)),
            None => None,
        }),
{
    let re = regex_lite::Regex::new(r"(\d+)/(\d+)").ok()?;
    let caps = re.captures(line)?;
    Some((caps.get(1)?.as_str().to_string(), caps.get(2)?.as_str().to_string()))
}

pub open spec fn digit_value(c: char) -> nat {
    (c as u32 - 48) as nat
}

/// The number that a run of decimal digits spells.
pub open spec fn digits_value(s: Seq<char>) -> nat
    decreases s.len(),
{
    if s.len() == 0 {
        0
    } else {
        digits_value(s.drop_last()) * 10 + digit_value(s.last())
    }
}

/// The number that `s` spells, where it fits in a `u64`.
pub fn parse_count(s: &str) -> (r: Option<u64>)
    requires
        forall|i: int| 0 <= i < s@.len() ==> is_digit(#[trigger] s@[i]),
    ensures
        match r {
            Some(v) => v == digits_value(s@),
            None => digits_value(s@) > u64::MAX,
        },
{
    let mut acc: Option<u64> = Some(0);
    for c in it: s.chars()
        invariant
            it.seq() == s@,
            forall|i: int| 0 <= i < s@.len() ==> is_digit(#[trigger] s@[i]),
            match acc {
                Some(v) => v == digits_value(s@.take(it.index() as int)),
                None => digits_value(s@.take(it.index() as int)) > u64::MAX,
            },
    {
        let ghost i = it.index() as int;
        let ghost prev = digits_value(s@.take(i));
        assert(s@.take(i + 1).drop_last() =~= s@.take(i));
        assert(s@.take(i + 1).last() == c);
        assert(is_digit(s@[i]));
        let d = (c as u32 - 48) as u64;
        assert(digits_value(s@.take(i + 1)) == prev * 10 + d);
        assert(prev * 10 + d >= prev) by (nonlinear_arith);
        acc = match acc {
            Some(v) => match v.checked_mul(10) {
                Some(t) => t.checked_add(d),
                None => None,
            },
            None => None,
        };
    }
    assert(s@.take(s@.len() as int) =~= s@);
    acc
}

/// The percent that a line of the renderer's output reports: its first
/// `current/total` frame count, where `total` is not zero and both fit in a
/// `u64`; indeterminate otherwise.
pub open spec fn render_percent(line: Seq<char>) -> Percent {
    match first_frame_match(line) {
        Some((a, b)) => if digits_value(a) <= u64::MAX && 0 < digits_value(b) <= u64::MAX {
            Percent::Fraction { done: digits_value(a) as u64, total: digits_value(b) as u64 }
        } else {
            Percent::Indeterminate
        },
        None => Percent::Indeterminate,
    }
}

proof fn lemma_digit_run_is_digits(s: Seq<char>, i: int)
    requires
        0 <= i,
    ensures
        i + digit_run(s, i) <= s.len() || digit_run(s, i) == 0,
        forall|j: int| i <= j < i + digit_run(s, i) ==> is_digit(#[trigger] s[j]),
    decreases s.len() - i,
{
    if 0 <= i < s.len() && is_digit(s[i]) {
        lemma_digit_run_is_digits(s, i + 1);
    }
}

proof fn lemma_frame_match_digits(s: Seq<char>, i: int)
    requires
        0 <= i,
    ensures
        frame_match_from(s, i) matches Some((a, b)) ==> (forall|j: int|
            0 <= j < a.len() ==> is_digit(#[trigger] a[j])) && (forall|j: int|
            0 <= j < b.len() ==> is_digit(#[trigger] b[j])),
    decreases s.len() - i,
{
    if 0 <= i < s.len() {
        if frame_match_at(s, i) {
            let j = i + digit_run(s, i);
            lemma_digit_run_is_digits(s, i);
            lemma_digit_run_is_digits(s, j + 1);
        } else {
            lemma_frame_match_digits(s, i + 1);
        }
    }
}

/// The percent that a line of the renderer's output reports.
pub fn parse_render_progress(line: &str) -> (r: Percent)
    ensures
        r == render_percent(line@),
        r.wf(),
{
    proof {
        lemma_frame_match_digits(line@, 0);
    }
    match find_frame_counts(line) {
        Some((a, b)) => {
            match (parse_count(a.as_str()), parse_count(b.as_str())) {
                (Some(done), Some(total)) => {
                    if total > 0 {
                        Percent::Fraction { done, total }
                    } else {
                        Percent::Indeterminate
                    }
                },
                _ => Percent::Indeterminate,
            }
        },
        None => Percent::Indeterminate,
    }
}

} // verus!
