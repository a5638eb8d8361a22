//! The command line: `<program> <pattern> [--dryrun]`.

use vstd::prelude::*;
use vstd::string::*;

verus! {

/// What the command line asks for.
#[derive(Debug, PartialEq, Eq)]
pub enum Invocation {
    /// The wrong number of arguments: show the usage text and fail.
    Usage,
    /// Process the files that match `pattern`.
    Run { pattern: String, dryrun: bool },
}

/// An `Invocation` with its pattern as a sequence of characters.
pub enum InvocationView {
    Usage,
    Run { pattern: Seq<char>, dryrun: bool },
}

impl View for Invocation {
    type V = InvocationView;

    open spec fn view(&self) -> InvocationView {
        match self {
            Invocation::Usage => InvocationView::Usage,
            Invocation::Run { pattern, dryrun } => InvocationView::Run {
                pattern: pattern@,
                dryrun: *dryrun,
            },
        }
    }
}

/// The meaning of the arguments, the program's name being the first. The
/// pattern is the second; a third turns on the dry run if it is exactly
/// `--dryrun`, and has no effect otherwise.
pub open spec fn invocation(args: Seq<Seq<char>>) -> InvocationView {
    if args.len() < 2 || args.len() > 3 {
        InvocationView::Usage
    } else {
        InvocationView::Run {
            pattern: args[1],
            dryrun: args.len() == 3 && args[2] == "--dryrun"@,
        }
    }
}

/// The name to show for the program in the usage text: the first argument
/// of the process, or `fallback` where the argument list is empty.
pub open spec fn shown_program(args: Seq<Seq<char>>, fallback: Seq<char>) -> Seq<char> {
    if args.len() > 0 {
        args[0]
    } else {
        fallback
    }
}

/// The usage text.
pub open spec fn usage_text(package: Seq<char>, version: Seq<char>, program: Seq<char>) -> Seq<
    char,
> {
    package + " version "@ + version
        + "\nA program to add a the creation datestamp to the filename\nUsage: "@ + program
        + " <filepattern in quotes> [--dryrun]"@
}

/// Reads the arguments of the process, the program's name included.
pub fn parse_args(args: &Vec<String>) -> (parsed: Invocation)
    ensures
        parsed@ == invocation(args.deep_view()),
{
    let n: usize = args.len();
    if n < 2 || n > 3 {
        return Invocation::Usage;
    }
    assert(args.deep_view()[1] == args[1]@);
    let mut dryrun: bool = false;
    if n == 3 {
        assert(args.deep_view()[2] == args[2]@);
        let flag: String = String::from_str("--dryrun");
        dryrun = args[2] == flag;
    }
    Invocation::Run { pattern: args[1].clone(), dryrun }
}

impl Invocation {
    /// The exit code of the process: zero unless the usage text was due.
    pub fn exit_code(&self) -> (code: i32)
        ensures
            code == if self is Usage { 1i32 } else { 0i32 },
    {
        match self {
            Invocation::Usage => 1,
            Invocation::Run { .. } => 0,
        }
    }
}

/// Picks the name under which the program was called from the arguments
/// of the process. An empty argument list names no program: the fallback
/// stands in.
pub fn program_name<'a>(args: &'a Vec<String>, fallback: &'a str) -> (program: &'a str)
    ensures
        program@ == shown_program(args.deep_view(), fallback@),
{
    if args.len() > 0 {
        assert(args.deep_view()[0] == args[0]@);
        args[0].as_str()
    } else {
        fallback
    }
}

/// Words the usage text for standard error from the package's name and
/// version and the name under which the program was called.
pub fn usage(package: &str, version: &str, program: &str) -> (text: String)
    ensures
        text@ == usage_text(package@, version@, program@),
{
    let mut text: String = String::from_str(package);
    text.append(" version ");
    text.append(version);
    text.append("\nA program to add a the creation datestamp to the filename\nUsage: ");
    text.append(program);
    text.append(" <filepattern in quotes> [--dryrun]");
    text
}

} // verus!
