//! What happens to one matched file: skip it, rename it, or show the rename.

use vstd::prelude::*;
use vstd::string::*;
use crate::naming::{
    file_extension, file_stem, has_timestamp_suffix, is_stamped, lemma_stamped_has_suffix,
    lemma_stamped_parts, split_file_name, stamped, stamped_name,
};
use crate::timestamp::{is_timestamp, Timestamp};

verus! {

/// What to do with a matched file.
#[derive(Debug, PartialEq, Eq)]
pub enum Decision {
    /// The name carries a timestamp already: leave the file alone.
    Skip,
    /// Dry run: the file would get this name, and keeps its own.
    Preview { new_name: String },
    /// Give the file this name, in the directory where it is.
    Rename { new_name: String },
}

/// A `Decision` with its name as a sequence of characters.
pub enum DecisionView {
    Skip,
    Preview { new_name: Seq<char> },
    Rename { new_name: Seq<char> },
}

impl View for Decision {
    type V = DecisionView;

    open spec fn view(&self) -> DecisionView {
        match self {
            Decision::Skip => DecisionView::Skip,
            Decision::Preview { new_name } => DecisionView::Preview { new_name: new_name@ },
            Decision::Rename { new_name } => DecisionView::Rename { new_name: new_name@ },
        }
    }
}

/// One thing for the caller to do about a file.
#[derive(Debug, PartialEq, Eq)]
pub enum Effect {
    /// Print the line on standard output.
    Print { line: String },
    /// Print the line on standard error.
    Complain { line: String },
    /// Give the file this name, in the directory where it is.
    Rename { new_name: String },
}

/// An `Effect` with its text as a sequence of characters.
pub enum EffectView {
    Print { line: Seq<char> },
    Complain { line: Seq<char> },
    Rename { new_name: Seq<char> },
}

impl View for Effect {
    type V = EffectView;

    open spec fn view(&self) -> EffectView {
        match self {
            Effect::Print { line } => EffectView::Print { line: line@ },
            Effect::Complain { line } => EffectView::Complain { line: line@ },
            Effect::Rename { new_name } => EffectView::Rename { new_name: new_name@ },
        }
    }
}

/// The effects in a list, each by its view.
pub open spec fn effect_views(effects: Seq<Effect>) -> Seq<EffectView> {
    effects.map_values(|effect: Effect| effect@)
}

/// What the caller learned of a file's modification time: the timestamp, or
/// the reason why there is none.
pub open spec fn reading_view(reading: Result<Timestamp, String>) -> Result<Seq<char>, Seq<char>> {
    match reading {
        Ok(stamp) => Ok(stamp@),
        Err(reason) => Err(reason@),
    }
}

/// A file is skipped where the stem of its name ends in a timestamp suffix.
pub open spec fn is_skipped(file_name: Seq<char>) -> bool {
    has_timestamp_suffix(file_stem(file_name))
}

/// The decision for a file named `file_name` that was last modified at
/// `stamp`.
pub open spec fn decision(file_name: Seq<char>, stamp: Seq<char>, dryrun: bool) -> DecisionView {
    if is_skipped(file_name) {
        DecisionView::Skip
    } else if dryrun {
        DecisionView::Preview { new_name: stamped(file_name, stamp) }
    } else {
        DecisionView::Rename { new_name: stamped(file_name, stamp) }
    }
}

/// The line that reports a decision on standard output, for the file at
/// `path`. A rename that is carried out is not announced.
pub open spec fn notice(decision: DecisionView, path: Seq<char>) -> Option<Seq<char>> {
    match decision {
        DecisionView::Skip => Some("Skipping file (date already present): "@ + path + "\n"@),
        DecisionView::Preview { new_name } => Some(
            "Would rename: "@ + path + " -> "@ + new_name,
        ),
        DecisionView::Rename { new_name } => None,
    }
}

/// All that is done about the matched file at `path`, whose name is
/// `file_name`, in order. Without a modification time the file is left
/// alone and the reason goes to standard error. With one, the time is
/// shown, then the decision is announced or, for a rename, carried out.
pub open spec fn file_effects(
    path: Seq<char>,
    file_name: Seq<char>,
    reading: Result<Seq<char>, Seq<char>>,
    dryrun: bool,
) -> Seq<EffectView> {
    match reading {
        Err(reason) => seq![
            EffectView::Complain {
                line: "Failed to get creation date for file: "@ + path + ": "@ + reason,
            },
        ],
        Ok(stamp) => {
            let decided = decision(file_name, stamp, dryrun);
            let shown = EffectView::Print { line: "File creation date: "@ + stamp };
            match decided {
                DecisionView::Rename { new_name } => seq![shown, EffectView::Rename { new_name }],
                _ => seq![shown, EffectView::Print { line: notice(decided, path).unwrap() }],
            }
        },
    }
}

/// Decides what to do with the file named `file_name`, last modified at
/// `stamp`. The new name keeps the extension and has the timestamp right
/// before it.
pub fn decide(file_name: &str, stamp: &Timestamp, dryrun: bool) -> (decided: Decision)
    ensures
        decided@ == decision(file_name@, stamp@, dryrun),
        is_timestamp(stamp@),
        !(decided is Skip) ==> {
            let new_name = stamped(file_name@, stamp@);
            &&& file_stem(new_name) == file_stem(file_name@) + seq!['_'] + stamp@
            &&& file_extension(new_name) == file_extension(file_name@)
            &&& has_timestamp_suffix(file_stem(new_name))
        },
{
    let (stem, _) = split_file_name(file_name);
    let text: &str = stamp.as_str();
    proof {
        lemma_stamped_parts(file_name@, text@);
        lemma_stamped_has_suffix(file_name@, text@);
    }
    if is_stamped(stem) {
        Decision::Skip
    } else if dryrun {
        Decision::Preview { new_name: stamped_name(file_name, stamp) }
    } else {
        Decision::Rename { new_name: stamped_name(file_name, stamp) }
    }
}

impl Decision {
    /// The line to print on standard output for this decision, if any.
    pub fn notice(&self, path: &str) -> (line: Option<String>)
        ensures
            line is Some <==> notice(self@, path@) is Some,
            line matches Some(text) ==> Some(text@) == notice(self@, path@),
    {
        match self {
            Decision::Skip => {
                let mut line: String = String::from_str("Skipping file (date already present): ");
                line.append(path);
                line.append("\n");
                Some(line)
            },
            Decision::Preview { new_name } => {
                let mut line: String = String::from_str("Would rename: ");
                line.append(path);
                line.append(" -> ");
                line.append(new_name.as_str());
                Some(line)
            },
            Decision::Rename { .. } => None,
        }
    }
}

/// The line for standard output that shows the modification time of a
/// matched file.
pub fn timestamp_line(stamp: &Timestamp) -> (line: String)
    ensures
        line@ == "File creation date: "@ + stamp@,
{
    let mut line: String = String::from_str("File creation date: ");
    line.append(stamp.as_str());
    line
}

/// The line for standard error when the modification time of the file at
/// `path` cannot be had. The file is left alone.
pub fn timestamp_error_line(path: &str, reason: &str) -> (line: String)
    ensures
        line@ == "Failed to get creation date for file: "@ + path@ + ": "@ + reason@,
{
    let mut line: String = String::from_str("Failed to get creation date for file: ");
    line.append(path);
    line.append(": ");
    line.append(reason);
    line
}

/// The line for standard error when renaming the file at `path` fails. The
/// run goes on with the next file.
pub fn rename_error_line(path: &str, reason: &str) -> (line: String)
    ensures
        line@ == "Error renaming file: "@ + path@ + ": "@ + reason@,
{
    let mut line: String = String::from_str("Error renaming file: ");
    line.append(path);
    line.append(": ");
    line.append(reason);
    line
}

/// Works out what is to be done about one matched file: `path` is how the
/// file is shown, `file_name` the last part of its path, `reading` its
/// modification time or the reason why it could not be had.
pub fn process_file(
    path: &str,
    file_name: &str,
    reading: &Result<Timestamp, String>,
    dryrun: bool,
) -> (effects: Vec<Effect>)
    ensures
        effect_views(effects@) == file_effects(path@, file_name@, reading_view(*reading), dryrun),
{
    let mut effects: Vec<Effect> = Vec::new();
    match reading {
        Err(reason) => {
            effects.push(Effect::Complain { line: timestamp_error_line(path, reason.as_str()) });
        },
        Ok(stamp) => {
            effects.push(Effect::Print { line: timestamp_line(stamp) });
            let decided: Decision = decide(file_name, stamp, dryrun);
            match decided.notice(path) {
                Some(line) => {
                    effects.push(Effect::Print { line });
                },
                None => {},
            }
            match decided {
                Decision::Rename { new_name } => {
                    effects.push(Effect::Rename { new_name });
                },
                _ => {},
            }
        },
    }
    assert(effect_views(effects@) =~= file_effects(
        path@,
        file_name@,
        reading_view(*reading),
        dryrun,
    ));
    effects
}

/// A file is renamed at most once: the name that a run gives a file is
/// skipped by every later run, in either mode and whatever the file's
/// modification time is by then.
pub proof fn lemma_renamed_is_skipped(
    file_name: Seq<char>,
    first: Seq<char>,
    second: Seq<char>,
    dryrun: bool,
)
    requires
        is_timestamp(first),
    ensures
        decision(stamped(file_name, first), second, dryrun) == DecisionView::Skip,
        decision(file_name, first, false) matches DecisionView::Rename { new_name }
            ==> decision(new_name, second, dryrun) == DecisionView::Skip,
        decision(file_name, first, false) == DecisionView::Skip ==> decision(
            file_name,
            second,
            dryrun,
        ) == DecisionView::Skip,
{
    lemma_stamped_has_suffix(file_name, first);
}

/// Every rename puts the timestamp right before the extension: the new
/// name has the old stem, `_` and the timestamp for its stem, and the old
/// extension.
pub proof fn lemma_rename_carries_suffix(
    path: Seq<char>,
    file_name: Seq<char>,
    stamp: Seq<char>,
    dryrun: bool,
)
    requires
        is_timestamp(stamp),
    ensures
        forall|i: int|
            #![trigger file_effects(path, file_name, Ok(stamp), dryrun)[i]]
            0 <= i < file_effects(path, file_name, Ok(stamp), dryrun).len() ==> (file_effects(
                path,
                file_name,
                Ok(stamp),
                dryrun,
            )[i] matches EffectView::Rename { new_name } ==> {
                &&& has_timestamp_suffix(file_stem(new_name))
                &&& file_stem(new_name) == file_stem(file_name) + seq!['_'] + stamp
                &&& file_extension(new_name) == file_extension(file_name)
            }),
{
    lemma_stamped_parts(file_name, stamp);
    lemma_stamped_has_suffix(file_name, stamp);
}

/// A dry run renames nothing, skips exactly the files that a live run
/// skips, and shows for each other file the name that a live run gives it.
pub proof fn lemma_dry_run_agrees(file_name: Seq<char>, stamp: Seq<char>)
    ensures
        !(decision(file_name, stamp, true) is Rename),
        !(decision(file_name, stamp, false) is Preview),
        decision(file_name, stamp, true) is Skip <==> decision(file_name, stamp, false) is Skip,
        decision(file_name, stamp, false) matches DecisionView::Rename { new_name }
            ==> decision(file_name, stamp, true) == (DecisionView::Preview { new_name }),
{
}

/// Nothing that a dry run does about a file is a rename, whatever is known
/// of the file.
pub proof fn lemma_dry_run_renames_nothing(
    path: Seq<char>,
    file_name: Seq<char>,
    reading: Result<Seq<char>, Seq<char>>,
)
    ensures
        forall|i: int|
            0 <= i < file_effects(path, file_name, reading, true).len() ==> !(
            #[trigger] file_effects(path, file_name, reading, true)[i] is Rename),
{
}

} // verus!
