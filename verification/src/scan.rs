//! One pass over what a file pattern expands to.
//!
//! The caller expands the pattern and looks at each path; the scan decides
//! what to do with each entry, counts the matched files, and words the
//! summary.

use vstd::prelude::*;
use vstd::string::*;
use crate::text::{decimal, decimal_string};

verus! {

/// One item of the expansion of a pattern.
#[derive(Debug, PartialEq, Eq)]
pub enum Entry {
    /// A path that names an existing regular file.
    File { path: String },
    /// A path that names anything else: a directory, or nothing any more.
    Other,
    /// A path that could not be read, with the reason.
    Unreadable { reason: String },
}

/// What the caller does about an entry.
#[derive(Debug, PartialEq, Eq)]
pub enum Action {
    /// Print `notice` on standard output, then process the file.
    Process { notice: String },
    /// Nothing.
    Ignore,
    /// Print `complaint` on standard error and go on.
    Report { complaint: String },
}

/// An `Entry` with its text as sequences of characters.
pub enum EntryView {
    File { path: Seq<char> },
    Other,
    Unreadable { reason: Seq<char> },
}

/// An `Action` with its text as sequences of characters.
pub enum ActionView {
    Process { notice: Seq<char> },
    Ignore,
    Report { complaint: Seq<char> },
}

impl View for Entry {
    type V = EntryView;

    open spec fn view(&self) -> EntryView {
        match self {
            Entry::File { path } => EntryView::File { path: path@ },
            Entry::Other => EntryView::Other,
            Entry::Unreadable { reason } => EntryView::Unreadable { reason: reason@ },
        }
    }
}

impl View for Action {
    type V = ActionView;

    open spec fn view(&self) -> ActionView {
        match self {
            Action::Process { notice } => ActionView::Process { notice: notice@ },
            Action::Ignore => ActionView::Ignore,
            Action::Report { complaint } => ActionView::Report { complaint: complaint@ },
        }
    }
}

/// The action that an entry calls for.
pub open spec fn action_for(entry: EntryView) -> ActionView {
    match entry {
        EntryView::File { path } => ActionView::Process { notice: "Matched file: "@ + path },
        EntryView::Other => ActionView::Ignore,
        EntryView::Unreadable { reason } => ActionView::Report {
            complaint: "Error processing path: "@ + reason,
        },
    }
}

/// Only regular files count as matched.
pub open spec fn counts(entry: EntryView) -> nat {
    if entry is File {
        1
    } else {
        0
    }
}

/// The line that closes a scan of `pattern` in which `matched` files were
/// found.
pub open spec fn summary_text(matched: nat, pattern: Seq<char>) -> Seq<char> {
    if matched == 0 {
        "No files matched the pattern: "@ + pattern
    } else {
        "There were "@ + decimal(matched) + " files matching the pattern "@ + pattern + "."@
    }
}

/// The progress of a scan: how many regular files it has met.
pub struct Scan {
    matched: u64,
}

impl View for Scan {
    type V = nat;

    closed spec fn view(&self) -> nat {
        self.matched as nat
    }
}

impl Scan {
    /// A scan that has met no file yet.
    pub fn new() -> (scan: Scan)
        ensures
            scan@ == 0,
    {
        Scan { matched: 0 }
    }

    /// The number of matched files so far.
    pub fn matched(&self) -> (count: u64)
        ensures
            count == self@,
    {
        self.matched
    }

    /// Takes the next entry of the expansion: counts it if it is a regular
    /// file, and says what the caller does about it. The mode of the run
    /// plays no part in it.
    pub fn step(&mut self, entry: &Entry) -> (action: Action)
        requires
            old(self)@ + counts(entry@) <= u64::MAX,
        ensures
            final(self)@ == old(self)@ + counts(entry@),
            action@ == action_for(entry@),
    {
        match entry {
            Entry::File { path } => {
                self.matched = self.matched + 1;
                let mut notice: String = String::from_str("Matched file: ");
                notice.append(path.as_str());
                Action::Process { notice }
            },
            Entry::Other => Action::Ignore,
            Entry::Unreadable { reason } => {
                let mut complaint: String = String::from_str("Error processing path: ");
                complaint.append(reason.as_str());
                Action::Report { complaint }
            },
        }
    }

    /// The summary line for standard output, once the expansion of
    /// `pattern` is used up.
    pub fn summary(&self, pattern: &str) -> (line: String)
        ensures
            line@ == summary_text(self@, pattern@),
    {
        if self.matched == 0 {
            let mut line: String = String::from_str("No files matched the pattern: ");
            line.append(pattern);
            line
        } else {
            let mut line: String = String::from_str("There were ");
            line.append(decimal_string(self.matched).as_str());
            line.append(" files matching the pattern ");
            line.append(pattern);
            line.append(".");
            line
        }
    }
}

/// The line for standard error when the pattern itself is malformed. Such a
/// run looks at no file and prints no summary.
pub fn pattern_error_line(reason: &str) -> (line: String)
    ensures
        line@ == "Error matching glob pattern: "@ + reason@,
{
    let mut line: String = String::from_str("Error matching glob pattern: ");
    line.append(reason);
    line
}

} // verus!
