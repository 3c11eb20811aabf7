//! Bookkeeping of a run over several scripts: which paths are scripts, and
//! the report on how the scripts ended.

use vstd::prelude::*;
use vstd::string::*;
use crate::text::{decimal, decimal_text, texts};

verus! {

/// Whether a path matched by the caller's pattern names a regular file.
///
/// `metadata` is `None` when the metadata of the path could not be read and
/// `Some(is_file)` otherwise. Only regular files are run as scripts; a path
/// whose metadata is unreadable is passed over.
pub fn is_path_file(metadata: Option<bool>) -> (file: bool)
    ensures
        file == (metadata == Some(true)),
{
    match metadata {
        Some(is_file) => is_file,
        None => false,
    }
}

/// How one script ended: its name, and the reason of its failure if it
/// failed.
#[derive(Debug, PartialEq, Eq)]
pub struct ScriptResult {
    pub name: String,
    pub failure: Option<String>,
}

/// The number of results without a failure among the first `upto`.
pub open spec fn passed_count(results: Seq<ScriptResult>, upto: int) -> nat
    decreases upto,
{
    if upto <= 0 {
        0
    } else if results[upto - 1].failure is None {
        passed_count(results, upto - 1) + 1
    } else {
        passed_count(results, upto - 1)
    }
}

/// The first line of the report: how many of the scripts passed.
pub open spec fn summary_text(passed: nat, total: nat) -> Seq<char> {
    decimal_text(passed) + "/"@ + decimal_text(total) + " tests passed"@
}

/// The report's line on a failed script.
pub open spec fn failure_text(name: Seq<char>, reason: Seq<char>) -> Seq<char> {
    name + " failed with: "@ + reason
}

/// The reason given for a script whose file could not be opened.
pub open spec fn unopened_text(name: Seq<char>) -> Seq<char> {
    "Could not open test file "@ + name
}

/// The lines on the failed scripts among the first `upto` results, in the
/// order of the results.
pub open spec fn failure_lines(results: Seq<ScriptResult>, upto: int) -> Seq<Seq<char>>
    decreases upto,
{
    if upto <= 0 {
        Seq::empty()
    } else {
        match results[upto - 1].failure {
            Some(reason) => failure_lines(results, upto - 1).push(
                failure_text(results[upto - 1].name@, reason@),
            ),
            None => failure_lines(results, upto - 1),
        }
    }
}

/// The whole report: the summary, then one line for each failed script.
pub open spec fn report_lines(results: Seq<ScriptResult>) -> Seq<Seq<char>> {
    seq![summary_text(passed_count(results, results.len() as int), results.len())] + failure_lines(
        results,
        results.len() as int,
    )
}

/// Counts the scripts that passed.
pub fn count_passed(results: &Vec<ScriptResult>) -> (passed: usize)
    ensures
        passed == passed_count(results@, results.len() as int),
{
    let mut passed: usize = 0;
    let mut i: usize = 0;
    while i < results.len()
        invariant
            i <= results.len(),
            passed <= i,
            passed == passed_count(results@, i as int),
        decreases results.len() - i,
    {
        if results[i].failure.is_none() {
            passed = passed + 1;
        }
        i = i + 1;
    }
    passed
}

/// The first line of the report, such as `3/4 tests passed`.
pub fn summary_line(passed: usize, total: usize) -> (line: String)
    ensures
        line@ == summary_text(passed as nat, total as nat),
{
    let mut line: String = decimal(passed);
    line.append("/");
    line.append(decimal(total).as_str());
    line.append(" tests passed");
    line
}

/// The report's line on a failed script: its name and the reason.
pub fn failure_line(name: &str, reason: &str) -> (line: String)
    ensures
        line@ == failure_text(name@, reason@),
{
    let mut line: String = name.to_string();
    line.append(" failed with: ");
    line.append(reason);
    line
}

/// The reason given for a script whose file could not be opened.
pub fn unopened_reason(name: &str) -> (reason: String)
    ensures
        reason@ == unopened_text(name@),
{
    let mut reason: String = "Could not open test file ".to_string();
    reason.append(name);
    reason
}

/// The lines of the report on a run: the summary first, then one line for
/// each failed script, in the order in which the scripts were run.
pub fn report(results: &Vec<ScriptResult>) -> (lines: Vec<String>)
    ensures
        texts(lines@) == report_lines(results@),
{
    let mut lines: Vec<String> = Vec::new();
    lines.push(summary_line(count_passed(results), results.len()));
    let ghost summary = summary_text(passed_count(results@, results.len() as int), results.len() as nat);
    let mut i: usize = 0;
    while i < results.len()
        invariant
            i <= results.len(),
            lines@.len() == 1 + failure_lines(results@, i as int).len(),
            lines@[0]@ == summary,
            forall|j: int|
                1 <= j < lines@.len() ==> (#[trigger] lines@[j])@ == failure_lines(
                    results@,
                    i as int,
                )[j - 1],
        decreases results.len() - i,
    {
        match &results[i].failure {
            Some(reason) => {
                lines.push(failure_line(results[i].name.as_str(), reason.as_str()));
            },
            None => {},
        }
        i = i + 1;
    }
    lines
}

} // verus!
