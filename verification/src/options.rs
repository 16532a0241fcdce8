//! The command line: which flags exist, what a list of arguments means, and
//! what the program does about it.
//!
//! The arguments are parsed by the `getopts` crate. What it returns is named
//! here and not described: the contracts of this module say what is done with
//! the parser's answer, whatever that answer is.

use crate::text::owned_texts;
use crate::toolchain::BuildSystem;
use vstd::prelude::*;
use vstd::string::*;

verus! {

/// One flag of an option table: its short name, its long name and the line
/// that describes it in the usage text. An absent name is the empty string.
pub ghost struct FlagDecl {
    pub short: Seq<char>,
    pub long: Seq<char>,
    pub description: Seq<char>,
}

/// What a successful parse holds: the names it can be asked about, those among
/// them whose flag was given, and the arguments that are no flags, in order.
pub ghost struct Parsed {
    pub known: Set<Seq<char>>,
    pub matched: Set<Seq<char>>,
    pub free: Seq<Seq<char>>,
}

/// Why a command line was not accepted by the parser. Each variant carries the
/// name of the option concerned.
#[derive(Clone, Debug, PartialEq, Eq)]
pub enum ParseFailure {
    ArgumentMissing(String),
    UnrecognizedOption(String),
    OptionMissing(String),
    OptionDuplicated(String),
    UnexpectedArgument(String),
}

pub ghost enum FailureView {
    ArgumentMissing(Seq<char>),
    UnrecognizedOption(Seq<char>),
    OptionMissing(Seq<char>),
    OptionDuplicated(Seq<char>),
    UnexpectedArgument(Seq<char>),
}

impl View for ParseFailure {
    type V = FailureView;

    open spec fn view(&self) -> FailureView {
        match self {
            ParseFailure::ArgumentMissing(name) => FailureView::ArgumentMissing(name@),
            ParseFailure::UnrecognizedOption(name) => FailureView::UnrecognizedOption(name@),
            ParseFailure::OptionMissing(name) => FailureView::OptionMissing(name@),
            ParseFailure::OptionDuplicated(name) => FailureView::OptionDuplicated(name@),
            ParseFailure::UnexpectedArgument(name) => FailureView::UnexpectedArgument(name@),
        }
    }
}

impl FailureView {
    /// The sentence that reports the failure, in the parser's wording.
    pub open spec fn message(self) -> Seq<char> {
        match self {
            FailureView::ArgumentMissing(name) => "Argument to option '"@ + name + "' missing"@,
            FailureView::UnrecognizedOption(name) => "Unrecognized option: '"@ + name + "'"@,
            FailureView::OptionMissing(name) => "Required option '"@ + name + "' missing"@,
            FailureView::OptionDuplicated(name) => "Option '"@ + name + "' given more than once"@,
            FailureView::UnexpectedArgument(name) => "Option '"@ + name
                + "' does not take an argument"@,
        }
    }
}

#[verifier::external_type_specification]
#[verifier::external_body]
pub struct ExOptions(getopts::Options);

#[verifier::external_type_specification]
#[verifier::external_body]
pub struct ExMatches(getopts::Matches);

/// The flags an option table holds, in the order in which they were declared.
pub uninterp spec fn declared(opts: getopts::Options) -> Seq<FlagDecl>;

/// Whether an option table parses in the way a freshly made one does: flags
/// and free arguments may be mixed, and long names take two dashes.
pub uninterp spec fn default_style(opts: getopts::Options) -> bool;

/// What a parse result holds.
pub uninterp spec fn contents(matches: getopts::Matches) -> Parsed;

/// What parsing `args` against a table of `flags` in the default style gives.
pub uninterp spec fn parsed(flags: Seq<FlagDecl>, args: Seq<Seq<char>>) -> Result<
    Parsed,
    FailureView,
>;

/// The usage text of a table of `flags` in the default style under the first
/// line `brief`.
pub uninterp spec fn usage_of(flags: Seq<FlagDecl>, brief: Seq<char>) -> Seq<char>;

/// The flag can be found under a name.
pub open spec fn has_name(flag: FlagDecl) -> bool {
    flag.short.len() > 0 || flag.long.len() > 0
}

/// Each name of the flag is among `names`.
pub open spec fn names_known(names: Set<Seq<char>>, flag: FlagDecl) -> bool {
    &&& flag.short.len() > 0 ==> names.contains(flag.short)
    &&& flag.long.len() > 0 ==> names.contains(flag.long)
}

/// `Options::new` of getopts: an empty table in the default style.
#[verifier::external_body]
fn new_options() -> (opts: getopts::Options)
    ensures
        declared(opts) == Seq::<FlagDecl>::empty(),
        default_style(opts),
{
    getopts::Options::new()
}

/// `Options::optflag` of getopts: appends one optional flag without argument
/// to the table and leaves the rest of the table as it was. getopts panics on
/// a short name of more than one byte and on a long name of exactly one byte;
/// both are left out.
#[verifier::external_body]
fn add_flag(opts: &mut getopts::Options, short: &str, long: &str, description: &str)
    requires
        short@.len() == 0 || (short@.len() == 1 && is_ascii(short)),
        long@.len() != 1,
    ensures
        declared(*final(opts)) == declared(*old(opts)).push(
            FlagDecl { short: short@, long: long@, description: description@ },
        ),
        default_style(*final(opts)) == default_style(*old(opts)),
{
    opts.optflag(short, long, description);
}

/// `Options::parse` of getopts. The result is a function of the table and the
/// arguments; it is named, not described. On success every name of a declared
/// flag can be asked about. getopts panics on a flag without any name, which
/// is left out. The error is handed on variant by variant.
#[verifier::external_body]
fn parse(opts: &getopts::Options, args: &Vec<String>) -> (outcome: Result<
    getopts::Matches,
    ParseFailure,
>)
    requires
        default_style(*opts),
        forall|i: int| 0 <= i < declared(*opts).len() ==> has_name(#[trigger] declared(*opts)[i]),
    ensures
        match outcome {
            Ok(matches) => parsed(declared(*opts), owned_texts(args@)) == Ok::<
                Parsed,
                FailureView,
            >(contents(matches)),
            Err(failure) => parsed(declared(*opts), owned_texts(args@)) == Err::<
                Parsed,
                FailureView,
            >(failure@),
        },
        outcome matches Ok(matches) ==> forall|i: int|
            0 <= i < declared(*opts).len() ==> names_known(
                contents(matches).known,
                #[trigger] declared(*opts)[i],
            ),
{
    match opts.parse(args) {
        Ok(matches) => Ok(matches),
        Err(getopts::Fail::ArgumentMissing(name)) => Err(ParseFailure::ArgumentMissing(name)),
        Err(getopts::Fail::UnrecognizedOption(name)) => Err(ParseFailure::UnrecognizedOption(name)),
        Err(getopts::Fail::OptionMissing(name)) => Err(ParseFailure::OptionMissing(name)),
        Err(getopts::Fail::OptionDuplicated(name)) => Err(ParseFailure::OptionDuplicated(name)),
        Err(getopts::Fail::UnexpectedArgument(name)) => Err(ParseFailure::UnexpectedArgument(name)),
    }
}

/// `Matches::opt_present` of getopts: whether the flag of that name was given.
/// getopts panics on a name that the table did not declare, which is left out.
#[verifier::external_body]
fn flag_present(matches: &getopts::Matches, name: &str) -> (present: bool)
    requires
        contents(*matches).known.contains(name@),
    ensures
        present == contents(*matches).matched.contains(name@),
{
    matches.opt_present(name)
}

/// The field `free` of getopts' `Matches`: the arguments that are no flags.
#[verifier::external_body]
fn free_args(matches: &getopts::Matches) -> (free: Vec<String>)
    ensures
        owned_texts(free@) == contents(*matches).free,
{
    matches.free.clone()
}

/// `Options::usage` of getopts. The text is a function of the table and the
/// first line; it is named, not described.
#[verifier::external_body]
fn usage_text(opts: &getopts::Options, brief: &str) -> (text: String)
    requires
        default_style(*opts),
    ensures
        text@ == usage_of(declared(*opts), brief@),
{
    opts.usage(brief)
}

/// What the program reads off a successful parse.
#[derive(Clone, Debug, PartialEq, Eq)]
pub struct Flags {
    pub help: bool,
    pub no_sanitize: bool,
    pub no_ninja: bool,
    pub free: Vec<String>,
}

pub ghost struct FlagsView {
    pub help: bool,
    pub no_sanitize: bool,
    pub no_ninja: bool,
    pub free: Seq<Seq<char>>,
}

impl View for Flags {
    type V = FlagsView;

    open spec fn view(&self) -> FlagsView {
        FlagsView {
            help: self.help,
            no_sanitize: self.no_sanitize,
            no_ninja: self.no_ninja,
            free: owned_texts(self.free@),
        }
    }
}

/// What a run works on: the project directory as it was typed, whether the
/// sanitizer configurations are switched off, and the build system.
#[derive(Clone, Debug, PartialEq, Eq)]
pub struct Request {
    pub project: String,
    pub no_sanitize: bool,
    pub build_system: BuildSystem,
}

pub ghost struct RequestView {
    pub project: Seq<char>,
    pub no_sanitize: bool,
    pub build_system: BuildSystem,
}

impl View for Request {
    type V = RequestView;

    open spec fn view(&self) -> RequestView {
        RequestView {
            project: self.project@,
            no_sanitize: self.no_sanitize,
            build_system: self.build_system,
        }
    }
}

/// What a command line asks for.
#[derive(Clone, Debug, PartialEq, Eq)]
pub enum Invocation {
    /// Show the usage text and stop with exit code 1, without a message.
    Usage,
    /// Stop with exit code 1 and this message.
    Rejected(String),
    /// Generate the build tree.
    Proceed(Request),
}

pub ghost enum InvocationView {
    Usage,
    Rejected(Seq<char>),
    Proceed(RequestView),
}

impl View for Invocation {
    type V = InvocationView;

    open spec fn view(&self) -> InvocationView {
        match self {
            Invocation::Usage => InvocationView::Usage,
            Invocation::Rejected(message) => InvocationView::Rejected(message@),
            Invocation::Proceed(request) => InvocationView::Proceed(request@),
        }
    }
}

/// The view of a parse outcome.
pub open spec fn outcome_view(outcome: Result<Flags, ParseFailure>) -> Result<
    FlagsView,
    FailureView,
> {
    match outcome {
        Ok(flags) => Ok(flags@),
        Err(failure) => Err(failure@),
    }
}

/// The flags of the program, in the order of the usage text.
pub open spec fn flag_table() -> Seq<FlagDecl> {
    seq![
        FlagDecl {
            short: ""@,
            long: "no-sanitize"@,
            description: "Don't build sanitize configurations"@,
        },
        FlagDecl {
            short: ""@,
            long: "no-ninja"@,
            description: "Don't use ninja as a build system. Use plain make instead."@,
        },
        FlagDecl { short: "h"@, long: "help"@, description: "print this help menu"@ },
    ]
}

/// The first line of the usage text.
pub open spec fn brief_line(program: Seq<char>) -> Seq<char> {
    "Usage: "@ + program + " project_dir [options]"@
}

/// The usage text of the program when it was started as `program`.
pub open spec fn usage_text_of(program: Seq<char>) -> Seq<char> {
    usage_of(flag_table(), brief_line(program))
}

/// What the program reads off a parse.
pub open spec fn flags_of(parse: Parsed) -> FlagsView {
    FlagsView {
        help: parse.matched.contains("h"@),
        no_sanitize: parse.matched.contains("no-sanitize"@),
        no_ninja: parse.matched.contains("no-ninja"@),
        free: parse.free,
    }
}

/// What the arguments `args` (without the program's name) mean under the
/// program's flags.
pub open spec fn command_line(args: Seq<Seq<char>>) -> Result<FlagsView, FailureView> {
    match parsed(flag_table(), args) {
        Ok(parse) => Ok(flags_of(parse)),
        Err(failure) => Err(failure),
    }
}

/// The build system that the flags select: Ninja, unless it was switched off.
pub open spec fn selected_build_system(no_ninja: bool) -> BuildSystem {
    if no_ninja {
        BuildSystem::Make
    } else {
        BuildSystem::Ninja
    }
}

/// What is done about a parse outcome. A request for help, a missing project
/// directory and an unknown flag are answered with the usage text; any other
/// failure of the parser with its message; else the first free argument is the
/// project directory.
pub open spec fn decide(outcome: Result<FlagsView, FailureView>) -> InvocationView {
    match outcome {
        Err(FailureView::UnrecognizedOption(_)) => InvocationView::Usage,
        Err(failure) => InvocationView::Rejected(failure.message()),
        Ok(flags) => if flags.help || flags.free.len() == 0 {
            InvocationView::Usage
        } else {
            InvocationView::Proceed(
                RequestView {
                    project: flags.free[0],
                    no_sanitize: flags.no_sanitize,
                    build_system: selected_build_system(flags.no_ninja),
                },
            )
        },
    }
}

impl ParseFailure {
    /// The sentence that reports the failure.
    pub fn message(&self) -> (text: String)
        ensures
            text@ == self@.message(),
    {
        match self {
            ParseFailure::ArgumentMissing(name) => {
                let mut text = String::from_str("Argument to option '");
                text.append(name.as_str());
                text.append("' missing");
                text
            },
            ParseFailure::UnrecognizedOption(name) => {
                let mut text = String::from_str("Unrecognized option: '");
                text.append(name.as_str());
                text.append("'");
                text
            },
            ParseFailure::OptionMissing(name) => {
                let mut text = String::from_str("Required option '");
                text.append(name.as_str());
                text.append("' missing");
                text
            },
            ParseFailure::OptionDuplicated(name) => {
                let mut text = String::from_str("Option '");
                text.append(name.as_str());
                text.append("' given more than once");
                text
            },
            ParseFailure::UnexpectedArgument(name) => {
                let mut text = String::from_str("Option '");
                text.append(name.as_str());
                text.append("' does not take an argument");
                text
            },
        }
    }
}

/// The option table of the program.
fn program_options() -> (opts: getopts::Options)
    ensures
        declared(opts) == flag_table(),
        default_style(opts),
{
    proof {
        reveal_strlit("");
        reveal_strlit("h");
        reveal_strlit("help");
        reveal_strlit("no-sanitize");
        reveal_strlit("no-ninja");
    }
    let mut opts = new_options();
    add_flag(&mut opts, "", "no-sanitize", "Don't build sanitize configurations");
    add_flag(
        &mut opts,
        "",
        "no-ninja",
        "Don't use ninja as a build system. Use plain make instead.",
    );
    add_flag(&mut opts, "h", "help", "print this help menu");
    opts
}

/// Parses the arguments `args` (without the program's name) and reads the
/// program's flags off the result.
pub fn read_flags(args: &Vec<String>) -> (outcome: Result<Flags, ParseFailure>)
    ensures
        outcome_view(outcome) == command_line(owned_texts(args@)),
{
    let opts = program_options();
    proof {
        reveal_strlit("");
        reveal_strlit("h");
        reveal_strlit("help");
        reveal_strlit("no-sanitize");
        reveal_strlit("no-ninja");
        assert(has_name(flag_table()[0]));
        assert(has_name(flag_table()[1]));
        assert(has_name(flag_table()[2]));
    }
    match parse(&opts, args) {
        Err(failure) => Err(failure),
        Ok(matches) => {
            proof {
                assert(names_known(contents(matches).known, flag_table()[0]));
                assert(names_known(contents(matches).known, flag_table()[1]));
                assert(names_known(contents(matches).known, flag_table()[2]));
            }
            let help = flag_present(&matches, "h");
            let no_sanitize = flag_present(&matches, "no-sanitize");
            let no_ninja = flag_present(&matches, "no-ninja");
            let free = free_args(&matches);
            Ok(Flags { help, no_sanitize, no_ninja, free })
        },
    }
}

/// Decides what is done about a parse outcome.
pub fn interpret(outcome: Result<Flags, ParseFailure>) -> (invocation: Invocation)
    ensures
        invocation@ == decide(outcome_view(outcome)),
{
    match outcome {
        Err(ParseFailure::UnrecognizedOption(_)) => Invocation::Usage,
        Err(failure) => Invocation::Rejected(failure.message()),
        Ok(flags) => {
            if flags.help || flags.free.len() == 0 {
                Invocation::Usage
            } else {
                let build_system = if flags.no_ninja {
                    BuildSystem::Make
                } else {
                    BuildSystem::Ninja
                };
                Invocation::Proceed(
                    Request {
                        project: flags.free[0].clone(),
                        no_sanitize: flags.no_sanitize,
                        build_system,
                    },
                )
            }
        },
    }
}

/// What the arguments `args` (without the program's name) ask for.
pub fn parse_args(args: &Vec<String>) -> (invocation: Invocation)
    ensures
        invocation@ == decide(command_line(owned_texts(args@))),
{
    interpret(read_flags(args))
}

/// The usage text of the program when it was started as `program`.
pub fn usage(program: &str) -> (text: String)
    ensures
        text@ == usage_text_of(program@),
{
    let opts = program_options();
    let mut brief = String::from_str("Usage: ");
    brief.append(program);
    brief.append(" project_dir [options]");
    usage_text(&opts, brief.as_str())
}

} // verus!
