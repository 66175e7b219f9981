//! Launching with the user's session: where the entry is kept and how an
//! entry is told to be this program's.

use vstd::prelude::*;
use vstd::string::StringExecFns;
use crate::text::characters;

verus! {

/// The place of the session's launch entries in the settings store, as
/// the names of the nested keys.
pub fn autostart_key_path() -> (path: Vec<String>)
    ensures
        path.deep_view() == seq![
            "SOFTWARE"@,
            "Microsoft"@,
            "Windows"@,
            "CurrentVersion"@,
            "Run"@,
        ],
{
    let mut path: Vec<String> = Vec::new();
    path.push(String::from_str("SOFTWARE"));
    path.push(String::from_str("Microsoft"));
    path.push(String::from_str("Windows"));
    path.push(String::from_str("CurrentVersion"));
    path.push(String::from_str("Run"));
    assert(path.deep_view() =~= seq![
        "SOFTWARE"@,
        "Microsoft"@,
        "Windows"@,
        "CurrentVersion"@,
        "Run"@,
    ]);
    path
}

/// The name of this program's launch entry.
pub fn autostart_entry_name() -> (name: String)
    ensures
        name@ == "ECH Client"@,
{
    String::from_str("ECH Client")
}

/// The lower-case form of a text, as `str::to_lowercase` gives it.
pub uninterp spec fn lowercase_of(text: Seq<char>) -> Seq<char>;

/// The lower-case form of a text. This calls `str::to_lowercase` of the
/// standard library; that the result depends on the text alone is all
/// that is claimed of it.
#[verifier::external_body]
fn lowercase(text: &str) -> (lower: String)
    ensures
        lower@ == lowercase_of(text@),
{
    text.to_lowercase()
}

/// The test that every character but the double quote passes.
pub open spec fn is_no_quote() -> spec_fn(char) -> bool {
    |c: char| c != '"'
}

/// A text without its double quotes.
pub open spec fn unquoted(text: Seq<char>) -> Seq<char> {
    text.filter(is_no_quote())
}

fn without_quotes(text: &str) -> (kept: Vec<char>)
    ensures
        kept@ == unquoted(text@),
{
    let chars = characters(text);
    let mut kept: Vec<char> = Vec::new();
    let mut at: usize = 0;
    assert(chars@.take(0) =~= Seq::<char>::empty());
    proof {
        reveal(Seq::filter);
    }
    while at < chars.len()
        invariant
            at <= chars.len(),
            kept@ == chars@.take(at as int).filter(is_no_quote()),
        decreases chars.len() - at,
    {
        proof {
            reveal(Seq::filter);
            assert(chars@.take(at + 1).drop_last() =~= chars@.take(at as int));
            assert(chars@.take(at + 1).last() == chars@[at as int]);
        }
        if chars[at] != '"' {
            kept.push(chars[at]);
        }
        at += 1;
    }
    assert(chars@.take(at as int) =~= chars@);
    kept
}

/// Whether two texts are the same once their double quotes are left out.
pub fn same_unquoted(first: &str, second: &str) -> (same: bool)
    ensures
        same == (unquoted(first@) == unquoted(second@)),
{
    let left = without_quotes(first);
    let right = without_quotes(second);
    if left.len() != right.len() {
        return false;
    }
    let mut at: usize = 0;
    while at < left.len()
        invariant
            at <= left.len(),
            left.len() == right.len(),
            left@ == unquoted(first@),
            right@ == unquoted(second@),
            forall|i: int| 0 <= i < at ==> left@[i] == right@[i],
        decreases left.len() - at,
    {
        if left[at] != right[at] {
            return false;
        }
        at += 1;
    }
    assert(left@ =~= right@);
    true
}

/// Whether launching with the session is enabled for the running
/// executable: an entry is stored and names it. The two paths are
/// compared in lower case and without double quotes.
pub fn is_autostart_enabled(stored: Option<&str>, current: &str) -> (enabled: bool)
    ensures
        enabled == match stored {
            Some(entry) => unquoted(lowercase_of(entry@)) == unquoted(lowercase_of(current@)),
            None => false,
        },
{
    match stored {
        Some(entry) => {
            let entry = lowercase(entry);
            let current = lowercase(current);
            same_unquoted(entry.as_str(), current.as_str())
        },
        None => false,
    }
}

} // verus!
