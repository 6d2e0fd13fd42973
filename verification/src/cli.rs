//! Command line of the daemon: one optional flag that names the folder
//! holding the settings file.

use vstd::prelude::*;

verus! {

/// Name shown at the top of the help text.
pub const PROGRAM: &'static str = "mostro p2p";

/// One-line description shown in the help text.
pub const ABOUT: &'static str = "A P2P lightning exchange over Nostr";

/// Version printed by `--version`.
pub const VERSION: &'static str = "0.1.0";

/// Layout of the help text.
pub const HELP_TEMPLATE: &'static str =
    "{before-help}{name}\n\n{about-with-newline}\n{author-with-newline}\n{usage-heading} {usage}\n\n{all-args}{after-help}\n";

/// Long name of the settings-folder option; its short form is `SETTINGS_SHORT`.
pub const SETTINGS_OPTION: &'static str = "dirsettings";

/// Short name of the settings-folder option.
pub const SETTINGS_SHORT: char = 'd';

/// Help line of the settings-folder option.
pub const SETTINGS_HELP: &'static str =
    "Set folder for Mostro settings file - default is HOME/.mostro";

/// Parsed command line.
#[derive(Clone, Debug, PartialEq, Eq)]
pub struct Cli {
    /// Folder for the settings file; `None` selects the default, HOME/.mostro.
    pub dirsettings: Option<String>,
}

/// Why a command line yielded no `Cli`.
#[derive(Clone, Debug, PartialEq, Eq)]
pub struct CliError {
    /// Status the process should exit with: 0 after help or version output,
    /// otherwise the usage-error status.
    pub exit_code: i32,
    /// Text to show the user.
    pub message: String,
}

/// What parsing a command line comes to, over plain values: the optional
/// settings folder, or the exit status of the failure.
pub open spec fn outcome_of(r: Result<Option<String>, CliError>) -> Result<Option<Seq<char>>, int> {
    match r {
        Ok(Some(dir)) => Ok(Some(dir@)),
        Ok(None) => Ok(None),
        Err(e) => Err(e.exit_code as int),
    }
}

/// The outcome that the argument parser assigns to a command line, for a
/// command with the one value option `--<option>` / `-<short>` and the
/// built-in help and version flags.
pub uninterp spec fn parsed_command_line(
    option: Seq<char>,
    short: char,
    args: Seq<Seq<char>>,
) -> Result<Option<Seq<char>>, int>;

/// Hands `args` (program name first) to `clap::Command::try_get_matches_from`
/// for a command built from the given texts with a single optional value
/// option. Trusted: the outcome is the one named by `parsed_command_line`;
/// nothing is claimed about the message text. It is called with this
/// program's own texts only, which clap accepts as names of a command and of
/// an option.
#[verifier::external_body]
fn parse_with_clap(
    program: &'static str,
    about: &'static str,
    version: &'static str,
    template: &'static str,
    option: &'static str,
    short: char,
    help: &'static str,
    args: &Vec<String>,
) -> (r: Result<Option<String>, CliError>)
    requires
        program@ == PROGRAM@,
        about@ == ABOUT@,
        version@ == VERSION@,
        template@ == HELP_TEMPLATE@,
        option@ == SETTINGS_OPTION@,
        short == SETTINGS_SHORT,
        help@ == SETTINGS_HELP@,
    ensures
        outcome_of(r) == parsed_command_line(option@, short, args.deep_view()),
{
    let arg = clap::Arg::new(option).short(short).long(option).help(help);
    let cmd = clap::Command::new(program).about(about).version(version).help_template(template)
        .propagate_version(true).arg_required_else_help(false).arg(arg);
    match cmd.try_get_matches_from(args) {
        Ok(m) => Ok(m.get_one::<String>(option).cloned()),
        Err(e) => Err(CliError { exit_code: e.exit_code(), message: e.to_string() }),
    }
}

impl Cli {
    /// Parses a command line, program name first.
    pub fn try_parse_from(args: Vec<String>) -> (r: Result<Cli, CliError>)
        ensures
            match r {
                Ok(cli) => parsed_command_line(SETTINGS_OPTION@, SETTINGS_SHORT, args.deep_view())
                    == Ok::<Option<Seq<char>>, int>(cli.settings_dir()),
                Err(e) => parsed_command_line(SETTINGS_OPTION@, SETTINGS_SHORT, args.deep_view())
                    == Err::<Option<Seq<char>>, int>(e.exit_code as int),
            },
    {
        let parsed = parse_with_clap(
            PROGRAM,
            ABOUT,
            VERSION,
            HELP_TEMPLATE,
            SETTINGS_OPTION,
            SETTINGS_SHORT,
            SETTINGS_HELP,
            &args,
        );
        Cli::from_parsed(parsed)
    }

    /// The settings folder this command line asks for, as plain text.
    pub open spec fn settings_dir(&self) -> Option<Seq<char>> {
        match self.dirsettings {
            Some(dir) => Some(dir@),
            None => None,
        }
    }

    /// Turns what the argument parser returned into a `Cli`, keeping failures.
    pub fn from_parsed(parsed: Result<Option<String>, CliError>) -> (r: Result<Cli, CliError>)
        ensures
            match (parsed, r) {
                (Ok(dir), Ok(cli)) => cli.dirsettings == dir,
                (Err(e), Err(f)) => e == f,
                _ => false,
            },
    {
        match parsed {
            Ok(dir) => Ok(Cli { dirsettings: dir }),
            Err(e) => Err(e),
        }
    }
}

/// Where the settings file is to be looked for.
#[derive(Clone, Debug, PartialEq, Eq)]
pub enum SettingsDir {
    /// The default folder, HOME/.mostro.
    Default,
    /// The folder given on the command line.
    Custom(String),
}

impl SettingsDir {
    /// The folder as optional plain text: `None` for the default.
    pub open spec fn path(&self) -> Option<Seq<char>> {
        match self {
            SettingsDir::Default => None,
            SettingsDir::Custom(dir) => Some(dir@),
        }
    }
}

/// Selects the settings folder for a parsed command line: the custom folder
/// when one was given, the default otherwise.
pub fn select_settings_dir(cli: Cli) -> (r: SettingsDir)
    ensures
        r.path() == cli.settings_dir(),
{
    match cli.dirsettings {
        Some(dir) => SettingsDir::Custom(dir),
        None => SettingsDir::Default,
    }
}

/// Parses the command line and selects the settings folder. The caller
/// creates the settings file there if none exists, and on `Err` shows the
/// message and exits with the given status.
pub fn settings_init(args: Vec<String>) -> (r: Result<SettingsDir, CliError>)
    ensures
        match r {
            Ok(dir) => parsed_command_line(SETTINGS_OPTION@, SETTINGS_SHORT, args.deep_view())
                == Ok::<Option<Seq<char>>, int>(dir.path()),
            Err(e) => parsed_command_line(SETTINGS_OPTION@, SETTINGS_SHORT, args.deep_view())
                == Err::<Option<Seq<char>>, int>(e.exit_code as int),
        },
{
    match Cli::try_parse_from(args) {
        Ok(cli) => Ok(select_settings_dir(cli)),
        Err(e) => Err(e),
    }
}

} // verus!
