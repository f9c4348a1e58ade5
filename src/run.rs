//! One run of a stage's process: every output line is retained and turned
//! into a progress event, and the exit status decides between the stage's
//! result and a failure report made of the output's last lines.

use vstd::prelude::*;
use crate::error::PipelineError;
use crate::progress::{parse_render_progress, render_percent, Percent, PipelineProgress, ProgressView, Stage};
use crate::text::{join_lines, push_char, push_str};

verus! {

/// The output stream a line came from.
#[derive(Clone, Copy, Debug, PartialEq, Eq, Structural)]
pub enum Stream {
    Stdout,
    Stderr,
}

/// A line of a process's output.
pub struct OutputLine {
    pub stream: Stream,
    pub text: String,
}

pub open spec fn line_views(lines: Seq<OutputLine>) -> Seq<(Stream, Seq<char>)> {
    lines.map_values(|l: OutputLine| (l.stream, l.text@))
}

/// How many lines of a failed run its report holds.
pub const REPORTED_LINES: usize = 5;

/// The report of a failed run: its last lines, at most `REPORTED_LINES`,
/// joined by newlines.
pub open spec fn failure_context(lines: Seq<(Stream, Seq<char>)>) -> Seq<char> {
    let start = if lines.len() > REPORTED_LINES { lines.len() - REPORTED_LINES } else { 0 };
    join_lines(lines.skip(start).map_values(|l: (Stream, Seq<char>)| l.1))
}

/// The event for one output line. The renderer reports its frame count;
/// of any other stage's tools it is known only that they are at work.
pub open spec fn line_event(stage: Stage, text: Seq<char>) -> ProgressView {
    ProgressView {
        stage,
        percent: if stage == Stage::Exporting {
            render_percent(text)
        } else {
            Percent::Active
        },
        message: text,
    }
}

pub open spec fn complete_message(stage: Stage) -> Seq<char> {
    match stage {
        Stage::Processing => "Video processing complete"@,
        Stage::Transcribing => "Transcription complete"@,
        Stage::Exporting => "Render complete!"@,
        Stage::Trimming => seq![],
    }
}

/// The stage's run: what it has retained of the output, and the result it
/// hands on when the process succeeds.
pub struct StageRun {
    pub stage: Stage,
    pub lines: Vec<OutputLine>,
    pub result: String,
}

pub struct RunView {
    pub stage: Stage,
    pub lines: Seq<(Stream, Seq<char>)>,
    pub result: Seq<char>,
}

impl View for StageRun {
    type V = RunView;

    open spec fn view(&self) -> RunView {
        RunView { stage: self.stage, lines: line_views(self.lines@), result: self.result@ }
    }
}

/// One line arriving: it is retained after those before it.
pub open spec fn after_line(r: RunView, stream: Stream, text: Seq<char>) -> RunView {
    RunView { lines: r.lines.push((stream, text)), ..r }
}

/// The event that ends a successful run.
pub open spec fn complete_event(stage: Stage) -> ProgressView {
    ProgressView { stage, percent: Percent::Fraction { done: 1, total: 1 }, message: complete_message(stage) }
}

/// Joins the texts of `lines[start..]` with newlines.
fn join_texts(lines: &Vec<OutputLine>, start: usize) -> (r: String)
    requires
        start <= lines.len(),
    ensures
        r@ == join_lines(line_views(lines@).skip(start as int).map_values(
            |l: (Stream, Seq<char>)| l.1,
        )),
{
    let ghost texts = line_views(lines@).skip(start as int).map_values(
        |l: (Stream, Seq<char>)| l.1,
    );
    let mut r = String::new();
    let mut j: usize = start;
    while j < lines.len()
        invariant
            start <= j <= lines.len(),
            texts.len() == lines.len() - start,
            forall|k: int| 0 <= k < texts.len() ==> texts[k] == lines@[start + k].text@,
            r@ == join_lines(texts.take(j - start)),
        decreases lines.len() - j,
    {
        let ghost n = (j - start) as int;
        assert(texts.take(n + 1).drop_last() =~= texts.take(n));
        if j > start {
            push_char(&mut r, '\n');
        } else {
            assert(texts.take(0) =~= Seq::<Seq<char>>::empty());
        }
        push_str(&mut r, lines[j].text.as_str());
        assert(r@ =~= join_lines(texts.take(n + 1)));
        j = j + 1;
    }
    assert(texts.take(texts.len() as int) =~= texts);
    r
}

impl StageRun {
    /// A run of `stage` that has seen no output yet.
    pub fn new(stage: Stage, result: String) -> (r: StageRun)
        ensures
            r@ == (RunView { stage, lines: seq![], result: result@ }),
    {
        let r = StageRun { stage, lines: Vec::new(), result };
        assert(line_views(r.lines@) =~= seq![]);
        r
    }

    /// Retains a line of output and returns the event that forwards it.
    pub fn on_line(&mut self, stream: Stream, text: String) -> (e: PipelineProgress)
        ensures
            final(self)@ == after_line(old(self)@, stream, text@),
            e@ == line_event(old(self).stage, text@),
            e.percent.wf(),
    {
        let percent = if self.stage == Stage::Exporting {
            parse_render_progress(text.as_str())
        } else {
            Percent::Active
        };
        let e = PipelineProgress { stage: self.stage, percent, message: text.clone() };
        self.lines.push(OutputLine { stream, text });
        assert(line_views(self.lines@) =~= line_views(old(self).lines@).push((stream, text@)));
        e
    }

    /// The report of a failed run: the last lines of its output.
    pub fn failure_context(&self) -> (r: String)
        ensures
            r@ == failure_context(self@.lines),
    {
        let n = self.lines.len();
        let start = if n > REPORTED_LINES { n - REPORTED_LINES } else { 0 };
        join_texts(&self.lines, start)
    }

    /// Ends the run once the process has exited: on success the closing
    /// event and the stage's result, otherwise the failure report.
    pub fn finish(&self, success: bool) -> (r: Result<(PipelineProgress, String), PipelineError>)
        requires
            self.stage != Stage::Trimming,
        ensures
            success ==> (r matches Ok((e, p)) && e@ == complete_event(self.stage) && p@
                == self@.result),
            !success ==> (r matches Err(PipelineError::StageFailure { stage, context }) && stage
                == self.stage && context@ == failure_context(self@.lines)),
    {
        if success {
            let message = match self.stage {
                Stage::Processing => String::from_str("Video processing complete"),
                Stage::Transcribing => String::from_str("Transcription complete"),
                _ => String::from_str("Render complete!"),
            };
            let e = PipelineProgress { stage: self.stage, percent: Percent::complete(), message };
            Ok((e, self.result.clone()))
        } else {
            Err(PipelineError::StageFailure { stage: self.stage, context: self.failure_context() })
        }
    }
}


/// Lines arriving one after another, in the order given.
pub open spec fn after_lines(r: RunView, arrivals: Seq<(Stream, Seq<char>)>) -> RunView
    decreases arrivals.len(),
{
    if arrivals.len() == 0 {
        r
    } else {
        let a = arrivals.last();
        after_line(after_lines(r, arrivals.drop_last()), a.0, a.1)
    }
}

/// The events that those lines are forwarded as, one for each.
pub open spec fn events_for(stage: Stage, arrivals: Seq<(Stream, Seq<char>)>) -> Seq<ProgressView> {
    arrivals.map_values(|a: (Stream, Seq<char>)| line_event(stage, a.1))
}

pub open spec fn from_stream(s: Stream) -> spec_fn((Stream, Seq<char>)) -> bool {
    |l: (Stream, Seq<char>)| l.0 == s
}

proof fn lemma_streams_partition(arrivals: Seq<(Stream, Seq<char>)>)
    ensures
        arrivals.filter(from_stream(Stream::Stdout)).len() + arrivals.filter(
            from_stream(Stream::Stderr),
        ).len() == arrivals.len(),
    decreases arrivals.len(),
{
    reveal(Seq::filter);
    if arrivals.len() > 0 {
        lemma_streams_partition(arrivals.drop_last());
    }
}

/// However the lines of the two streams interleave, none is dropped: with
/// N lines from stdout and M from stderr, the run retains N + M lines after
/// those it had, each stream's lines in the order they came, and N + M
/// events are forwarded.
pub proof fn lemma_streaming_keeps_every_line(r: RunView, arrivals: Seq<(Stream, Seq<char>)>)
    ensures
        ({
            let n = arrivals.filter(from_stream(Stream::Stdout)).len();
            let m = arrivals.filter(from_stream(Stream::Stderr)).len();
            let after = after_lines(r, arrivals);
            &&& after.stage == r.stage
            &&& after.result == r.result
            &&& after.lines == r.lines + arrivals
            &&& after.lines.len() == r.lines.len() + n + m
            &&& events_for(r.stage, arrivals).len() == n + m
            &&& forall|s: Stream|
                after.lines.filter(from_stream(s)) == r.lines.filter(from_stream(s))
                    + arrivals.filter(from_stream(s))
        }),
    decreases arrivals.len(),
{
    lemma_streams_partition(arrivals);
    if arrivals.len() == 0 {
        assert(r.lines + arrivals =~= r.lines);
    } else {
        lemma_streaming_keeps_every_line(r, arrivals.drop_last());
        assert(r.lines + arrivals =~= (r.lines + arrivals.drop_last()).push(arrivals.last()));
    }
    let after = after_lines(r, arrivals);
    assert forall|s: Stream|
        after.lines.filter(from_stream(s)) == r.lines.filter(from_stream(s)) + arrivals.filter(
            from_stream(s),
        ) by {
        Seq::filter_distributes_over_add(r.lines, arrivals, from_stream(s));
    }
}

/// A failed run with at least five lines of output reports exactly the last
/// five, joined by newlines.
pub proof fn lemma_failure_reports_last_five(lines: Seq<(Stream, Seq<char>)>)
    requires
        lines.len() >= 5,
    ensures
        ({
            let n = lines.len();
            failure_context(lines) == lines[n - 5].1 + seq!['\n'] + lines[n - 4].1 + seq!['\n']
                + lines[n - 3].1 + seq!['\n'] + lines[n - 2].1 + seq!['\n'] + lines[n - 1].1
        }),
{
    let n = lines.len();
    let texts = lines.skip(n - 5).map_values(|l: (Stream, Seq<char>)| l.1);
    assert(texts.len() == 5);
    assert(texts.drop_last().drop_last().drop_last().drop_last().len() == 1);
    assert(join_lines(texts.drop_last().drop_last().drop_last().drop_last()) == lines[n - 5].1);
    assert(join_lines(texts.drop_last().drop_last().drop_last()) == join_lines(texts.drop_last().drop_last().drop_last().drop_last()) + seq!['\n'] + lines[n - 4].1);
    assert(join_lines(texts.drop_last().drop_last()) == join_lines(texts.drop_last().drop_last().drop_last()) + seq!['\n'] + lines[n - 3].1);
    assert(join_lines(texts.drop_last()) == join_lines(texts.drop_last().drop_last()) + seq!['\n'] + lines[n - 2].1);
    assert(join_lines(texts) == join_lines(texts.drop_last()) + seq!['\n'] + lines[n - 1].1);
}

} // verus!
