//! The command line: one argument, the path of the bus the sensor is on.

use vstd::prelude::*;

verus! {

/// The status the program exits with after it has shown the usage line.
pub const USAGE_STATUS: i32 = 1;

/// What the command line asks for.
#[derive(Debug, PartialEq, Eq)]
pub enum Startup {
    /// Run on the bus at this path.
    Run(String),
    /// Show this line, open nothing, and exit with [`USAGE_STATUS`].
    Usage(String),
}

/// What a [`Startup`] holds, as mathematical values.
pub enum StartupView {
    Run(Seq<char>),
    Usage(Seq<char>),
}

impl View for Startup {
    type V = StartupView;

    open spec fn view(&self) -> StartupView {
        match self {
            Startup::Run(path) => StartupView::Run(path@),
            Startup::Usage(line) => StartupView::Usage(line@),
        }
    }
}

/// The arguments as sequences of characters.
pub open spec fn texts(args: Seq<String>) -> Seq<Seq<char>> {
    args.map_values(|a: String| a@)
}

/// The name the program was started under: the first argument, or nothing
/// where there is none.
pub open spec fn program_name(args: Seq<Seq<char>>) -> Seq<char> {
    if args.len() > 0 {
        args[0]
    } else {
        Seq::empty()
    }
}

/// The usage line for a program of this name.
pub open spec fn usage_text(program: Seq<char>) -> Seq<char> {
    "usage: "@ + program + " /dev/i2c-N"@
}

/// What the arguments ask for, the program's name being the first of them:
/// a run if exactly one argument follows the name, else the usage line.
pub open spec fn startup_of(args: Seq<Seq<char>>) -> StartupView {
    if args.len() == 2 {
        StartupView::Run(args[1])
    } else {
        StartupView::Usage(usage_text(program_name(args)))
    }
}

/// Reads the command line, the program's name being the first argument.
pub fn startup(args: &Vec<String>) -> (s: Startup)
    ensures
        s@ == startup_of(texts(args@)),
        s is Run <==> args@.len() == 2,
{
    if args.len() == 2 {
        Startup::Run(args[1].clone())
    } else {
        let mut line = "usage: ".to_owned();
        if args.len() > 0 {
            line.append(args[0].as_str());
        }
        line.append(" /dev/i2c-N");
        assert(line@ =~= usage_text(program_name(texts(args@))));
        Startup::Usage(line)
    }
}

} // verus!
