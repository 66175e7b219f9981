//! The process census: reading a process listing for the worker's name.

use vstd::prelude::*;
use crate::text::characters;

verus! {

/// `word` stands in `text` at position `at`.
pub open spec fn occurs_at(text: Seq<char>, word: Seq<char>, at: int) -> bool {
    0 <= at && at + word.len() <= text.len() && text.subrange(at, at + word.len()) == word
}

/// `word` stands somewhere in `text`.
pub open spec fn mentions(text: Seq<char>, word: Seq<char>) -> bool {
    exists|at: int| occurs_at(text, word, at)
}

fn stands_at(text: &Vec<char>, word: &Vec<char>, at: usize) -> (found: bool)
    requires
        at + word.len() <= text.len(),
    ensures
        found == occurs_at(text@, word@, at as int),
{
    let mut k: usize = 0;
    while k < word.len()
        invariant
            k <= word.len(),
            at + word.len() <= text.len(),
            forall|j: int| 0 <= j < k ==> text@[at + j] == word@[j],
        decreases word.len() - k,
    {
        if text[at + k] != word[k] {
            assert(text@.subrange(at as int, at + word.len())[k as int] == text@[at + k]);
            return false;
        }
        k += 1;
    }
    assert(text@.subrange(at as int, at + word.len()) =~= word@);
    true
}

/// Whether `word` stands somewhere in `text`. The empty word stands in
/// every text.
pub fn text_mentions(text: &str, word: &str) -> (found: bool)
    ensures
        found == mentions(text@, word@),
{
    let haystack = characters(text);
    let needle = characters(word);
    if needle.len() > haystack.len() {
        assert forall|at: int| !occurs_at(text@, word@, at) by {}
        return false;
    }
    let last: usize = haystack.len() - needle.len();
    let mut at: usize = 0;
    loop
        invariant
            haystack@ == text@,
            needle@ == word@,
            at <= last,
            last == haystack.len() - needle.len(),
            forall|i: int| 0 <= i < at ==> !occurs_at(text@, word@, i),
        decreases last - at,
    {
        if stands_at(&haystack, &needle, at) {
            assert(occurs_at(text@, word@, at as int));
            return true;
        }
        if at == last {
            assert forall|i: int| !occurs_at(text@, word@, i) by {}
            return false;
        }
        at += 1;
    }
}

/// The operating system family, which decides how the census is taken.
#[derive(Debug, Clone, Copy, PartialEq, Eq, Structural)]
pub enum Platform {
    Windows,
    Other,
}

/// A program and its arguments, for the caller to run.
#[derive(Debug, PartialEq, Eq)]
pub struct CommandLine {
    pub program: String,
    pub args: Vec<String>,
}

/// What a `CommandLine` holds, as text.
pub struct CommandLineView {
    pub program: Seq<char>,
    pub args: Seq<Seq<char>>,
}

impl View for CommandLine {
    type V = CommandLineView;

    open spec fn view(&self) -> CommandLineView {
        CommandLineView { program: self.program@, args: self.args.deep_view() }
    }
}

/// The text that betrays a worker in a process listing.
pub open spec fn worker_marker(platform: Platform) -> Seq<char> {
    match platform {
        Platform::Windows => "ech-workers.exe"@,
        Platform::Other => "ech-workers"@,
    }
}

/// The command whose standard output is the process listing.
pub open spec fn census_command_of(platform: Platform) -> CommandLineView {
    match platform {
        Platform::Windows => CommandLineView {
            program: "tasklist"@,
            args: seq!["/FI"@, "IMAGENAME eq ech-workers.exe"@, "/FO"@, "CSV"@],
        },
        Platform::Other => CommandLineView { program: "ps"@, args: seq!["aux"@] },
    }
}

/// The command that force-terminates every worker with its process tree.
pub open spec fn termination_command_of() -> CommandLineView {
    CommandLineView {
        program: "taskkill"@,
        args: seq!["/F"@, "/IM"@, "ech-workers.exe"@, "/T"@],
    }
}

/// The command that lists the processes in which a worker is looked for.
pub fn census_command(platform: Platform) -> (command: CommandLine)
    ensures
        command@ == census_command_of(platform),
{
    let mut args: Vec<String> = Vec::new();
    match platform {
        Platform::Windows => {
            args.push("/FI".to_owned());
            args.push("IMAGENAME eq ech-workers.exe".to_owned());
            args.push("/FO".to_owned());
            args.push("CSV".to_owned());
            assert(args.deep_view() =~= census_command_of(platform).args);
            CommandLine { program: "tasklist".to_owned(), args }
        },
        Platform::Other => {
            args.push("aux".to_owned());
            assert(args.deep_view() =~= census_command_of(platform).args);
            CommandLine { program: "ps".to_owned(), args }
        },
    }
}

/// The command that force-terminates all workers, whoever started them.
pub fn termination_command() -> (command: CommandLine)
    ensures
        command@ == termination_command_of(),
{
    let mut args: Vec<String> = Vec::new();
    args.push("/F".to_owned());
    args.push("/IM".to_owned());
    args.push("ech-workers.exe".to_owned());
    args.push("/T".to_owned());
    assert(args.deep_view() =~= termination_command_of().args);
    CommandLine { program: "taskkill".to_owned(), args }
}

/// What came back from one attempt to list the processes.
#[derive(Debug, PartialEq, Eq)]
pub enum CensusReport {
    /// The listing command ran; this is its standard output.
    Listing(String),
    /// The listing command could not be run.
    Unavailable,
}

impl View for CensusReport {
    type V = Option<Seq<char>>;

    open spec fn view(&self) -> Option<Seq<char>> {
        match self {
            CensusReport::Listing(text) => Some(text@),
            CensusReport::Unavailable => None,
        }
    }
}

/// A worker shows in the report. A census that could not be taken shows
/// none.
pub open spec fn shows_worker(report: Option<Seq<char>>, platform: Platform) -> bool {
    match report {
        Some(listing) => mentions(listing, worker_marker(platform)),
        None => false,
    }
}

/// Whether a worker process is present according to the report, whoever
/// started it.
pub fn is_worker_present(report: &CensusReport, platform: Platform) -> (present: bool)
    ensures
        present == shows_worker(report@, platform),
{
    match report {
        CensusReport::Listing(text) => {
            match platform {
                Platform::Windows => text_mentions(text.as_str(), "ech-workers.exe"),
                Platform::Other => text_mentions(text.as_str(), "ech-workers"),
            }
        },
        CensusReport::Unavailable => false,
    }
}

} // verus!
