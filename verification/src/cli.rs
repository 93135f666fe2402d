//! The command line: which front end the arguments of the program ask for.

use vstd::prelude::*;

use crate::strings::same_text;

verus! {

/// What the program was asked to do.
#[derive(Clone, Copy, Debug, PartialEq, Eq, Structural)]
pub enum CliOptions {
    /// Leave at once.
    Exit,
    /// Run the line-based front end.
    Text,
    /// Run the terminal front end.
    TUI,
    /// Run the graphical front end.
    GUI,
    /// Run the three-dimensional front end.
    ThreeDimensional,
}

/// The help text.
pub const USAGE: &'static str = "Usage: wuerfel.exe [OPTIONS/ARGS]...
  -h, --help       display this help and exit
  -c, --text       use raw text output
  -t, --tui        use tui output
  -g, --gui        use gui output
  -3, --3d         use 3d output";

/// The argument that stands for no arguments at all.
pub const HELP_FLAG: &'static str = "--help";

/// One argument as the option parser reads it.
#[derive(Debug)]
pub enum CliArg {
    /// A short option such as `-c`, without the dash.
    Short(char),
    /// A long option such as `--text`, without the dashes and without what
    /// follows an equals sign.
    Long(String),
    /// An argument that is no option.
    Positional(String),
}

/// What a [`CliArg`] is, mathematically.
pub enum CliArgModel {
    Short(char),
    Long(Seq<char>),
    Positional(Seq<char>),
}

impl View for CliArg {
    type V = CliArgModel;

    open spec fn view(&self) -> CliArgModel {
        match self {
            CliArg::Short(short) => CliArgModel::Short(*short),
            CliArg::Long(long) => CliArgModel::Long(long@),
            CliArg::Positional(text) => CliArgModel::Positional(text@),
        }
    }
}

/// The part of `text` before its first equals sign, or all of it if it has
/// none.
pub open spec fn before_equals(text: Seq<char>) -> Seq<char>
    decreases text.len(),
{
    if text.len() == 0 || text[0] == '=' {
        Seq::empty()
    } else {
        seq![text[0]] + before_equals(text.drop_first())
    }
}

/// The first thing that the option parser reads from `args`:
///
/// - nothing, if there are no arguments;
/// - after a leading `--`, which ends the options, the argument that
///   follows as a positional one, or nothing if none follows;
/// - for an argument that starts with `--` and goes on, the long option
///   named by what stands between the dashes and the first equals sign;
/// - for an argument that starts with `-` and goes on, the short option
///   named by the character after the dash;
/// - any other argument as a positional one.
pub open spec fn first_argument(args: Seq<Seq<char>>) -> Option<CliArgModel> {
    if args.len() == 0 {
        None
    } else if args[0] == "--"@ {
        if args.len() > 1 {
            Some(CliArgModel::Positional(args[1]))
        } else {
            None
        }
    } else if args[0].len() > 2 && args[0][0] == '-' && args[0][1] == '-' {
        Some(CliArgModel::Long(before_equals(args[0].skip(2))))
    } else if args[0].len() > 1 && args[0][0] == '-' {
        Some(CliArgModel::Short(args[0][1]))
    } else {
        Some(CliArgModel::Positional(args[0]))
    }
}

/// The texts of `args`.
pub open spec fn arg_texts(args: Seq<String>) -> Seq<Seq<char>> {
    args.map_values(|arg: String| arg@)
}

/// Trusted: makes an option parser of the `getargs` crate over `args` with
/// `getargs::Options::new` and asks it once with
/// `getargs::Options::next_arg`. What comes back is what [`first_argument`]
/// says. The crate reports an error only for an option whose value nobody
/// took, which takes an earlier call; the first call has none.
#[verifier::external_body]
fn next_argument(args: &Vec<String>) -> (first: Option<CliArg>)
    ensures
        arg_model(first) == first_argument(arg_texts(args@)),
{
    let mut options = getargs::Options::new(args.iter().map(String::as_str));
    match options.next_arg() {
        Ok(Some(getargs::Arg::Short(short))) => Some(CliArg::Short(short)),
        Ok(Some(getargs::Arg::Long(long))) => Some(CliArg::Long(long.to_string())),
        Ok(Some(getargs::Arg::Positional(text))) => Some(CliArg::Positional(text.to_string())),
        Ok(None) => None,
        Err(_) => None,
    }
}

/// What the program does for its arguments: the front end to run, and the
/// text to print before that, if any.
pub struct CliOutcome {
    pub options: CliOptions,
    pub message: Option<&'static str>,
}

impl View for CliOutcome {
    type V = (CliOptions, Option<Seq<char>>);

    open spec fn view(&self) -> (CliOptions, Option<Seq<char>>) {
        (
            self.options,
            match self.message {
                Some(text) => Some(text@),
                None => None,
            },
        )
    }
}

/// What `first` is, mathematically.
pub open spec fn arg_model(first: Option<CliArg>) -> Option<CliArgModel> {
    match first {
        Some(arg) => Some(arg@),
        None => None,
    }
}

/// Whether `first` asks for the help text: it is `-h` or `--help`.
pub open spec fn asks_for_help(first: Option<CliArgModel>) -> bool {
    match first {
        Some(CliArgModel::Short(short)) => short == 'h',
        Some(CliArgModel::Long(long)) => long == "help"@,
        _ => false,
    }
}

/// The front end that `first` selects: `-c` or `--text` the line-based one,
/// `-t` or `--tui` the terminal one, `-g` or `--gui` the graphical one, `-3`
/// or `--3d` the three-dimensional one. Anything else, the request for help
/// included, selects none.
pub open spec fn selected_front_end(first: Option<CliArgModel>) -> CliOptions {
    match first {
        Some(CliArgModel::Short(short)) => if short == 'c' {
            CliOptions::Text
        } else if short == 't' {
            CliOptions::TUI
        } else if short == 'g' {
            CliOptions::GUI
        } else if short == '3' {
            CliOptions::ThreeDimensional
        } else {
            CliOptions::Exit
        },
        Some(CliArgModel::Long(long)) => if long == "text"@ {
            CliOptions::Text
        } else if long == "tui"@ {
            CliOptions::TUI
        } else if long == "gui"@ {
            CliOptions::GUI
        } else if long == "3d"@ {
            CliOptions::ThreeDimensional
        } else {
            CliOptions::Exit
        },
        _ => CliOptions::Exit,
    }
}

/// The arguments that are parsed for `args`: `args` themselves, or the
/// request for help if there are none.
pub open spec fn effective_args(args: Seq<Seq<char>>) -> Seq<Seq<char>> {
    if args.len() == 0 {
        seq![HELP_FLAG@]
    } else {
        args
    }
}

/// What the program does when `first` is the first thing that the option
/// parser has read: it runs the front end that `first` selects, and before
/// that prints the help text if `first` asks for it.
pub open spec fn outcome_of(first: Option<CliArgModel>) -> (CliOptions, Option<Seq<char>>) {
    (
        selected_front_end(first),
        if asks_for_help(first) {
            Some(USAGE@)
        } else {
            None
        },
    )
}

/// No two of the long options are spelled alike.
proof fn lemma_long_options_differ()
    ensures
        "help"@ != "text"@,
        "help"@ != "tui"@,
        "help"@ != "gui"@,
        "help"@ != "3d"@,
        "text"@ != "tui"@,
        "text"@ != "gui"@,
        "text"@ != "3d"@,
        "tui"@ != "gui"@,
        "tui"@ != "3d"@,
        "gui"@ != "3d"@,
{
    reveal_strlit("help");
    reveal_strlit("text");
    reveal_strlit("tui");
    reveal_strlit("gui");
    reveal_strlit("3d");
    assert("help"@.len() == 4 && "help"@[0] == 'h');
    assert("text"@.len() == 4 && "text"@[0] == 't');
    assert("tui"@.len() == 3 && "tui"@[0] == 't');
    assert("gui"@.len() == 3 && "gui"@[0] == 'g');
    assert("3d"@.len() == 2);
}

/// Decides what to do for the first argument that the option parser has
/// read: which front end to run, and whether to print the help text.
pub fn choose_front_end(first: &Option<CliArg>) -> (outcome: CliOutcome)
    ensures
        outcome@ == outcome_of(arg_model(*first)),
{
    proof {
        lemma_long_options_differ();
    }
    match first {
        Some(CliArg::Short(short)) => {
            let short = *short;
            if short == 'h' {
                CliOutcome { options: CliOptions::Exit, message: Some(USAGE) }
            } else if short == 'c' {
                CliOutcome { options: CliOptions::Text, message: None }
            } else if short == 't' {
                CliOutcome { options: CliOptions::TUI, message: None }
            } else if short == 'g' {
                CliOutcome { options: CliOptions::GUI, message: None }
            } else if short == '3' {
                CliOutcome { options: CliOptions::ThreeDimensional, message: None }
            } else {
                CliOutcome { options: CliOptions::Exit, message: None }
            }
        },
        Some(CliArg::Long(long)) => {
            let name = long.as_str();
            if same_text(name, "help") {
                CliOutcome { options: CliOptions::Exit, message: Some(USAGE) }
            } else if same_text(name, "text") {
                CliOutcome { options: CliOptions::Text, message: None }
            } else if same_text(name, "tui") {
                CliOutcome { options: CliOptions::TUI, message: None }
            } else if same_text(name, "gui") {
                CliOutcome { options: CliOptions::GUI, message: None }
            } else if same_text(name, "3d") {
                CliOutcome { options: CliOptions::ThreeDimensional, message: None }
            } else {
                CliOutcome { options: CliOptions::Exit, message: None }
            }
        },
        _ => CliOutcome { options: CliOptions::Exit, message: None },
    }
}

/// Decides what the program does for the arguments `args` that it was
/// started with, the name of the program not among them. Only the first
/// argument counts, and no arguments at all count as `--help`.
pub fn get_cli_options(args: Vec<String>) -> (outcome: CliOutcome)
    ensures
        outcome@ == outcome_of(first_argument(effective_args(arg_texts(args@)))),
{
    let mut parsed = args;
    if parsed.len() == 0 {
        parsed.push(HELP_FLAG.to_owned());
    }
    assert(arg_texts(parsed@) =~= effective_args(arg_texts(args@)));
    let first = next_argument(&parsed);
    choose_front_end(&first)
}

} // verus!
