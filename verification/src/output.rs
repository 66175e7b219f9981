//! The worker's captured output: a bounded log that keeps the newest
//! lines.

use vstd::prelude::*;
use vstd::string::StringExecFns;

verus! {

/// The most lines that a log retains.
pub const OUTPUT_CAPACITY: usize = 1000;

/// The lines after one more was appended: a full log gives up its oldest
/// line first.
pub open spec fn appended(lines: Seq<Seq<char>>, line: Seq<char>) -> Seq<Seq<char>> {
    if lines.len() >= OUTPUT_CAPACITY {
        lines.skip(lines.len() - OUTPUT_CAPACITY + 1).push(line)
    } else {
        lines.push(line)
    }
}

/// The lines after several were appended to an empty log, one after
/// another.
pub open spec fn logged(lines: Seq<Seq<char>>) -> Seq<Seq<char>>
    decreases lines.len(),
{
    if lines.len() == 0 {
        Seq::empty()
    } else {
        appended(logged(lines.drop_last()), lines.last())
    }
}

/// The newest lines, as many as a log retains.
pub open spec fn newest(lines: Seq<Seq<char>>) -> Seq<Seq<char>> {
    if lines.len() > OUTPUT_CAPACITY {
        lines.skip(lines.len() - OUTPUT_CAPACITY)
    } else {
        lines
    }
}

/// Appending never takes a log beyond its capacity, and the line that
/// was appended is the last one.
pub proof fn lemma_appended_is_bounded(lines: Seq<Seq<char>>, line: Seq<char>)
    ensures
        appended(lines, line).len() <= OUTPUT_CAPACITY,
        appended(lines, line).len() > 0,
        appended(lines, line).last() == line,
{
}

/// Appending to a full log evicts the oldest line and no other: what was
/// second becomes first.
pub proof fn lemma_full_log_evicts_oldest(lines: Seq<Seq<char>>, line: Seq<char>)
    requires
        lines.len() == OUTPUT_CAPACITY,
    ensures
        appended(lines, line) == lines.skip(1).push(line),
        appended(lines, line).len() == OUTPUT_CAPACITY,
        appended(lines, line)[0] == lines[1],
{
}

/// Whatever was appended to an empty log, it holds the newest lines and
/// never more than its capacity.
pub proof fn lemma_log_holds_newest(lines: Seq<Seq<char>>)
    ensures
        logged(lines) == newest(lines),
        logged(lines).len() <= OUTPUT_CAPACITY,
    decreases lines.len(),
{
    if lines.len() > 0 {
        lemma_log_holds_newest(lines.drop_last());
        assert(appended(newest(lines.drop_last()), lines.last()) =~= newest(lines));
    }
}

/// The bounded log of captured output lines.
#[derive(Debug)]
pub struct OutputLog {
    lines: Vec<String>,
}

impl View for OutputLog {
    type V = Seq<Seq<char>>;

    closed spec fn view(&self) -> Seq<Seq<char>> {
        self.lines.deep_view()
    }
}

impl OutputLog {
    #[verifier::type_invariant]
    spec fn within_capacity(self) -> bool {
        self.lines.len() <= OUTPUT_CAPACITY
    }

    /// An empty log.
    pub fn new() -> (log: Self)
        ensures
            log@ == Seq::<Seq<char>>::empty(),
    {
        let lines: Vec<String> = Vec::new();
        assert(lines.deep_view() =~= Seq::<Seq<char>>::empty());
        OutputLog { lines }
    }

    /// The number of retained lines, which never exceeds the capacity.
    pub fn len(&self) -> (count: usize)
        ensures
            count == self@.len(),
            count <= OUTPUT_CAPACITY,
    {
        proof {
            use_type_invariant(self);
        }
        self.lines.len()
    }
}

/// Appends a line to the log. A log that is full gives up its oldest
/// line for it.
pub fn add_output(log: &mut OutputLog, line: String)
    ensures
        final(log)@ == appended(old(log)@, line@),
        final(log)@.len() <= OUTPUT_CAPACITY,
{
    proof {
        use_type_invariant(&*log);
    }
    let mut lines: Vec<String> = Vec::new();
    core::mem::swap(&mut lines, &mut log.lines);
    if lines.len() >= OUTPUT_CAPACITY {
        lines.remove(0);
    }
    lines.push(line);
    assert(lines.deep_view() =~= appended(old(log)@, line@));
    log.lines = lines;
}

/// A copy of the retained lines, oldest first.
pub fn get_output(log: &OutputLog) -> (lines: Vec<String>)
    ensures
        lines.deep_view() == log@,
        lines.len() <= OUTPUT_CAPACITY,
{
    proof {
        use_type_invariant(log);
    }
    let lines = log.lines.clone();
    assert(lines@ =~= log.lines@);
    lines
}

/// Empties the log.
pub fn clear_output(log: &mut OutputLog)
    ensures
        final(log)@ == Seq::<Seq<char>>::empty(),
{
    let lines: Vec<String> = Vec::new();
    assert(lines.deep_view() =~= Seq::<Seq<char>>::empty());
    log.lines = lines;
}

/// The prefix that marks a line of the worker's standard output.
pub open spec fn stdout_tag() -> Seq<char> {
    "[STDOUT] "@
}

/// A line of the worker's standard output as it is logged: tagged.
pub fn stdout_line(line: &str) -> (tagged: String)
    ensures
        tagged@ == stdout_tag() + line@,
{
    let mut tagged = String::from_str("[STDOUT] ");
    tagged.append(line);
    tagged
}

/// The prefix that marks a line of the worker's standard error.
pub open spec fn stderr_tag() -> Seq<char> {
    "[STDERR] "@
}

/// A line of the worker's standard error as it is logged: tagged, with
/// the tag of its own stream.
pub fn stderr_line(line: &str) -> (tagged: String)
    ensures
        tagged@ == stderr_tag() + line@,
{
    let mut tagged = String::from_str("[STDERR] ");
    tagged.append(line);
    tagged
}

} // verus!
