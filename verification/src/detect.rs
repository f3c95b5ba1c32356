//! Configuration files that an upgrade left beside the user's own.
//!
//! The scan itself is done by a tool of the native manager. Its output names
//! one file a line. What follows depends on the user: the merge tool is run
//! only if the user wants it, and, unless the user has switched that off,
//! only after a warning about the editor it starts.

use crate::text::{lines, spec_lines, strs};
use vstd::prelude::*;

verus! {

/// What to do about the files that were found.
#[derive(Clone, Copy, Debug, PartialEq, Eq, Structural)]
pub enum Pacdiff {
    /// Say that no file was found.
    ReportNone,
    /// Say that files were found and ask whether to run the merge tool.
    AskRun,
    /// Warn about the editor and ask whether to go on.
    WarnAndAsk,
    /// Run the merge tool.
    Run,
    /// Leave the files as they are.
    Leave,
}

/// What to do about `found` files after the answers given so far. With
/// `warn` the user is warned before the merge tool runs.
pub open spec fn spec_pacdiff(found: nat, warn: bool, answers: Seq<bool>) -> Pacdiff {
    if found == 0 {
        Pacdiff::ReportNone
    } else if answers.len() == 0 {
        Pacdiff::AskRun
    } else if !answers[0] {
        Pacdiff::Leave
    } else if !warn {
        Pacdiff::Run
    } else if answers.len() == 1 {
        Pacdiff::WarnAndAsk
    } else if answers[1] {
        Pacdiff::Run
    } else {
        Pacdiff::Leave
    }
}

/// Whether the setting of `PACDIFF_WARNING` asks for the warning: it does
/// unless it is exactly `0`.
pub open spec fn spec_warning_wanted(setting: Option<Seq<char>>) -> bool {
    match setting {
        Some(value) => value != seq!['0'],
        None => true,
    }
}

/// The files that the scan found: the lines of its output that are not
/// empty.
pub fn detect(output: &str) -> (files: Vec<String>)
    ensures
        strs(files@) == spec_lines(output@),
{
    lines(output)
}

/// Whether the setting of `PACDIFF_WARNING` asks for the warning.
pub fn warning_wanted(setting: Option<&String>) -> (wanted: bool)
    ensures
        wanted == spec_warning_wanted(
            match setting {
                Some(value) => Some(value@),
                None => None,
            },
        ),
{
    match setting {
        Some(value) => {
            let text = value.as_str();
            if text.unicode_len() == 1 {
                let c = text.get_char(0);
                proof {
                    if c == '0' {
                        assert(value@ =~= seq!['0']);
                    } else {
                        assert(seq!['0'][0] == '0');
                    }
                }
                c != '0'
            } else {
                assert(seq!['0'].len() == 1);
                true
            }
        },
        None => true,
    }
}

/// What to do about `found` files after the answers given so far.
pub fn pacdiff(found: usize, warn: bool, answers: &Vec<bool>) -> (next: Pacdiff)
    ensures
        next == spec_pacdiff(found as nat, warn, answers@),
{
    if found == 0 {
        Pacdiff::ReportNone
    } else if answers.len() == 0 {
        Pacdiff::AskRun
    } else if !answers[0] {
        Pacdiff::Leave
    } else if !warn {
        Pacdiff::Run
    } else if answers.len() == 1 {
        Pacdiff::WarnAndAsk
    } else if answers[1] {
        Pacdiff::Run
    } else {
        Pacdiff::Leave
    }
}

} // verus!
