use vstd::prelude::*;

use crate::text::{eq_str, starts_with};

verus! {

/// Where the service delivers transcribed text.
#[derive(Clone, Copy, Debug, PartialEq, Eq, Structural)]
pub enum CliOutputMode {
    Keyboard,
    Clipboard,
}

/// The wire name of an output mode.
pub open spec fn output_mode_name(mode: CliOutputMode) -> Seq<char> {
    match mode {
        CliOutputMode::Keyboard => "keyboard"@,
        CliOutputMode::Clipboard => "clipboard"@,
    }
}

impl CliOutputMode {
    /// The lowercase name used on the command line and on the wire.
    pub fn as_str(&self) -> (r: &'static str)
        ensures
            r@ == output_mode_name(*self),
    {
        match self {
            CliOutputMode::Keyboard => "keyboard",
            CliOutputMode::Clipboard => "clipboard",
        }
    }
}

/// What the user asked for.
#[derive(Clone, Copy, Debug, PartialEq, Eq, Structural)]
pub enum Commands {
    /// Start transcription; the output mode defaults to the keyboard.
    Start { output: CliOutputMode },
    /// Stop transcription.
    Stop,
    /// Start when idle, stop when running.
    Toggle { output: Option<CliOutputMode> },
    /// Print the service's current status.
    Status,
    /// Print every status change until the service closes the connection.
    Watch,
    /// Ask the service to shut down gracefully.
    Shutdown,
}

/// A parsed command line.
#[derive(Clone, Copy, Debug, PartialEq, Eq, Structural)]
pub struct Cli {
    pub command: Commands,
}

/// Why a command line was not accepted, or what it asked for instead of a
/// command.
#[derive(Clone, Copy, Debug, PartialEq, Eq, Structural)]
pub enum ErrorKind {
    /// No subcommand was given.
    MissingSubcommand,
    /// The subcommand is not one of the known ones.
    InvalidSubcommand,
    /// An argument that the subcommand does not take.
    UnknownArgument,
    /// `--output` without a value, or with one that names no output mode.
    InvalidValue,
    /// `--output` given more than once.
    ArgumentConflict,
    /// Help was asked for.
    DisplayHelp,
    /// The version was asked for.
    DisplayVersion,
}

/// A refused command line.
#[derive(Clone, Copy, Debug, PartialEq, Eq, Structural)]
pub struct CliError {
    pub kind: ErrorKind,
}

impl CliError {
    /// What went wrong.
    pub fn kind(&self) -> (r: ErrorKind)
        ensures
            r == self.kind,
    {
        self.kind
    }
}

/// The output mode that `name` names.
pub open spec fn mode_named(name: Seq<char>) -> Option<CliOutputMode> {
    if name == "keyboard"@ {
        Some(CliOutputMode::Keyboard)
    } else if name == "clipboard"@ {
        Some(CliOutputMode::Clipboard)
    } else {
        None
    }
}

pub open spec fn is_help_flag(a: Seq<char>) -> bool {
    a == "-h"@ || a == "--help"@
}

pub open spec fn is_version_flag(a: Seq<char>) -> bool {
    a == "-V"@ || a == "--version"@
}

/// The views of the arguments.
pub open spec fn args_view(args: Seq<&str>) -> Seq<Seq<char>> {
    args.map_values(|a: &str| a@)
}

/// Whether `a` carries its value after an equals sign: `--output=<mode>`.
pub open spec fn is_output_with_value(a: Seq<char>) -> bool {
    9 <= a.len() && a.subrange(0, 9) == "--output="@
}

/// The options of `start` and `toggle`, read from `args[i]` on, where
/// `seen` is the output mode given so far: `--output <mode>` or
/// `--output=<mode>` at most once, help and version flags, nothing else.
pub open spec fn output_options(args: Seq<Seq<char>>, i: int, seen: Option<CliOutputMode>) -> Result<
    Option<CliOutputMode>,
    ErrorKind,
>
    decreases args.len() - i,
{
    if i < 0 || i >= args.len() {
        Ok(seen)
    } else {
        let a = args[i];
        if is_help_flag(a) {
            Err(ErrorKind::DisplayHelp)
        } else if is_version_flag(a) {
            Err(ErrorKind::DisplayVersion)
        } else if a == "--output"@ || is_output_with_value(a) {
            if seen is Some {
                Err(ErrorKind::ArgumentConflict)
            } else if a == "--output"@ && i + 1 >= args.len() {
                Err(ErrorKind::InvalidValue)
            } else {
                let value = if a == "--output"@ { args[i + 1] } else { a.subrange(9, a.len() as int) };
                let next = if a == "--output"@ { i + 2 } else { i + 1 };
                match mode_named(value) {
                    None => Err(ErrorKind::InvalidValue),
                    Some(m) => output_options(args, next, Some(m)),
                }
            }
        } else {
            Err(ErrorKind::UnknownArgument)
        }
    }
}

/// The arguments after a subcommand that takes none: only the help and
/// version flags are accepted there, and the first of them answers.
pub open spec fn no_options(args: Seq<Seq<char>>, i: int) -> Result<(), ErrorKind>
    decreases args.len() - i,
{
    if i < 0 || i >= args.len() {
        Ok(())
    } else if is_help_flag(args[i]) {
        Err(ErrorKind::DisplayHelp)
    } else if is_version_flag(args[i]) {
        Err(ErrorKind::DisplayVersion)
    } else {
        Err(ErrorKind::UnknownArgument)
    }
}

/// A subcommand that takes no options, once its arguments are accepted.
pub open spec fn bare(args: Seq<Seq<char>>, command: Commands) -> Result<Commands, ErrorKind> {
    match no_options(args, 2) {
        Ok(_) => Ok(command),
        Err(k) => Err(k),
    }
}

/// The command that a command line asks for. `args[0]` names the program;
/// `args[1]` is the subcommand, and the rest are its options.
pub open spec fn parse_args(args: Seq<Seq<char>>) -> Result<Commands, ErrorKind> {
    if args.len() < 2 {
        Err(ErrorKind::MissingSubcommand)
    } else {
        let sub = args[1];
        if is_help_flag(sub) || sub == "help"@ {
            Err(ErrorKind::DisplayHelp)
        } else if is_version_flag(sub) {
            Err(ErrorKind::DisplayVersion)
        } else if sub == "start"@ {
            match output_options(args, 2, None) {
                Ok(m) => Ok(
                    Commands::Start {
                        output: match m {
                            Some(m) => m,
                            None => CliOutputMode::Keyboard,
                        },
                    },
                ),
                Err(k) => Err(k),
            }
        } else if sub == "toggle"@ {
            match output_options(args, 2, None) {
                Ok(m) => Ok(Commands::Toggle { output: m }),
                Err(k) => Err(k),
            }
        } else if sub == "stop"@ {
            bare(args, Commands::Stop)
        } else if sub == "status"@ {
            bare(args, Commands::Status)
        } else if sub == "watch"@ {
            bare(args, Commands::Watch)
        } else if sub == "shutdown"@ {
            bare(args, Commands::Shutdown)
        } else if sub.len() > 0 && sub[0] == '-' {
            Err(ErrorKind::UnknownArgument)
        } else {
            Err(ErrorKind::InvalidSubcommand)
        }
    }
}

/// The parse result as `parse_args` gives it.
pub open spec fn cli_result_view(r: Result<Cli, CliError>) -> Result<Commands, ErrorKind> {
    match r {
        Ok(c) => Ok(c.command),
        Err(e) => Err(e.kind),
    }
}

/// The output mode that `name` names, if any.
fn mode_from_name(name: &str) -> (r: Option<CliOutputMode>)
    ensures
        r == mode_named(name@),
{
    if eq_str(name, "keyboard") {
        Some(CliOutputMode::Keyboard)
    } else if eq_str(name, "clipboard") {
        Some(CliOutputMode::Clipboard)
    } else {
        None
    }
}

fn help_flag(a: &str) -> (r: bool)
    ensures
        r == is_help_flag(a@),
{
    eq_str(a, "-h") || eq_str(a, "--help")
}

fn version_flag(a: &str) -> (r: bool)
    ensures
        r == is_version_flag(a@),
{
    eq_str(a, "-V") || eq_str(a, "--version")
}

/// Reads the options of `start` and `toggle`.
fn read_output_options(args: &[&str]) -> (r: Result<Option<CliOutputMode>, ErrorKind>)
    ensures
        r == output_options(args_view(args@), 2, None),
{
    let ghost av = args_view(args@);
    let n = args.len();
    let mut i: usize = 2;
    let mut seen: Option<CliOutputMode> = None;
    while i < n
        invariant
            n == args@.len(),
            av == args_view(args@),
            av.len() == n,
            2 <= i,
            output_options(av, 2, None) == output_options(av, i as int, seen),
        decreases n - i,
    {
        let a = args[i];
        assert(av[i as int] == a@);
        proof {
            reveal_strlit("--output=");
            reveal_strlit("--output");
        }
        if help_flag(a) {
            return Err(ErrorKind::DisplayHelp);
        }
        if version_flag(a) {
            return Err(ErrorKind::DisplayVersion);
        }
        let bare_flag = eq_str(a, "--output");
        let with_value = starts_with(a, "--output=");
        if !bare_flag && !with_value {
            return Err(ErrorKind::UnknownArgument);
        }
        if seen.is_some() {
            return Err(ErrorKind::ArgumentConflict);
        }
        let value: &str;
        let next: usize;
        if bare_flag {
            if i + 1 >= n {
                return Err(ErrorKind::InvalidValue);
            }
            value = args[i + 1];
            assert(av[i + 1] == value@);
            next = i + 2;
        } else {
            value = a.substring_char(9, a.unicode_len());
            next = i + 1;
        }
        match mode_from_name(value) {
            None => return Err(ErrorKind::InvalidValue),
            Some(m) => {
                seen = Some(m);
            },
        }
        i = next;
    }
    Ok(seen)
}

/// Checks that nothing but help and version flags follows a subcommand
/// that takes no options.
fn read_no_options(args: &[&str]) -> (r: Result<(), ErrorKind>)
    ensures
        r == no_options(args_view(args@), 2),
{
    if args.len() <= 2 {
        return Ok(());
    }
    let a = args[2];
    assert(args_view(args@)[2] == a@);
    if help_flag(a) {
        Err(ErrorKind::DisplayHelp)
    } else if version_flag(a) {
        Err(ErrorKind::DisplayVersion)
    } else {
        Err(ErrorKind::UnknownArgument)
    }
}

impl Cli {
    /// Parses a command line whose first item names the program.
    pub fn try_parse_from(args: &[&str]) -> (r: Result<Cli, CliError>)
        ensures
            cli_result_view(r) == parse_args(args_view(args@)),
    {
        let ghost av = args_view(args@);
        if args.len() < 2 {
            return Err(CliError { kind: ErrorKind::MissingSubcommand });
        }
        let sub = args[1];
        assert(av[1] == sub@);
        let command = if help_flag(sub) || eq_str(sub, "help") {
            return Err(CliError { kind: ErrorKind::DisplayHelp });
        } else if version_flag(sub) {
            return Err(CliError { kind: ErrorKind::DisplayVersion });
        } else if eq_str(sub, "start") {
            match read_output_options(args) {
                Ok(m) => Commands::Start {
                    output: match m {
                        Some(m) => m,
                        None => CliOutputMode::Keyboard,
                    },
                },
                Err(kind) => return Err(CliError { kind }),
            }
        } else if eq_str(sub, "toggle") {
            match read_output_options(args) {
                Ok(m) => Commands::Toggle { output: m },
                Err(kind) => return Err(CliError { kind }),
            }
        } else {
            let c = if eq_str(sub, "stop") {
                Commands::Stop
            } else if eq_str(sub, "status") {
                Commands::Status
            } else if eq_str(sub, "watch") {
                Commands::Watch
            } else if eq_str(sub, "shutdown") {
                Commands::Shutdown
            } else if sub.unicode_len() > 0 && sub.get_char(0) == '-' {
                return Err(CliError { kind: ErrorKind::UnknownArgument });
            } else {
                return Err(CliError { kind: ErrorKind::InvalidSubcommand });
            };
            match read_no_options(args) {
                Ok(_) => c,
                Err(kind) => return Err(CliError { kind }),
            }
        };
        Ok(Cli { command })
    }

    /// Parses a command line that is known to be accepted.
    pub fn parse_from(args: &[&str]) -> (r: Cli)
        requires
            parse_args(args_view(args@)) is Ok,
        ensures
            parse_args(args_view(args@)) == Ok::<Commands, ErrorKind>(r.command),
    {
        match Cli::try_parse_from(args) {
            Ok(cli) => cli,
            Err(_) => {
                assert(false);
                Cli { command: Commands::Stop }
            },
        }
    }
}

} // verus!
