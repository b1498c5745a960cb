//! What the command lines of the four tools have in common.

use vstd::prelude::*;
use crate::text::views;

verus! {

/// A command line that `clap` did not accept, or that asked for the help
/// text: what `clap` would print, where, and the exit code it would end
/// the program with.
#[derive(Clone, Debug, PartialEq, Eq)]
pub struct ArgsError {
    pub message: String,
    /// Whether the message belongs on standard error.
    pub use_stderr: bool,
    pub exit_code: i32,
}

/// An option of a command line that takes one value: `-<short> <value>`
/// or `--<long> <value>`.
pub struct OptionSpec {
    /// The name under which the value is found after parsing.
    pub id: &'static str,
    pub short: char,
    pub long: &'static str,
    /// What the help text says of the option.
    pub help: &'static str,
}

pub struct OptionSpecView {
    pub id: Seq<char>,
    pub short: char,
    pub long: Seq<char>,
    pub help: Seq<char>,
}

impl View for OptionSpec {
    type V = OptionSpecView;

    open spec fn view(&self) -> OptionSpecView {
        OptionSpecView { id: self.id@, short: self.short, long: self.long@, help: self.help@ }
    }
}

/// The views of a list of options.
pub open spec fn option_spec_views(options: Seq<OptionSpec>) -> Seq<OptionSpecView> {
    options.map_values(|option: OptionSpec| option@)
}

/// The option leaves `-h` and `--help` to the help text, `-V` and
/// `--version` to the version, and has no name that begins with a hyphen.
pub open spec fn is_sound_option(option: OptionSpecView) -> bool {
    &&& option.short != '-' && option.short != 'h' && option.short != 'V'
    &&& option.id != "help"@ && option.id != "version"@
    &&& option.long != "help"@ && option.long != "version"@
    &&& option.long.len() > 0 ==> option.long[0] != '-'
}

/// Every option is sound, and no two share an id, a short or a long name.
pub open spec fn are_sound_options(options: Seq<OptionSpecView>) -> bool {
    &&& forall|i: int| 0 <= i < options.len() ==> is_sound_option(#[trigger] options[i])
    &&& forall|i: int, j: int|
        0 <= i < j < options.len() ==> {
            &&& (#[trigger] options[i]).id != (#[trigger] options[j]).id
            &&& options[i].short != options[j].short
            &&& options[i].long != options[j].long
        }
}

/// What `clap` makes of a command line, given the options of the command:
/// the value of each option, in the order of the options, or `None` where
/// it rejects the command line or is asked for the help text.
pub uninterp spec fn option_values(
    about: Seq<char>,
    options: Seq<OptionSpecView>,
    argv: Seq<Seq<char>>,
) -> Option<Seq<Option<Seq<char>>>>;

/// Declares a command called `about` with the given options, each with
/// `ArgAction::Set`, and lets `clap` parse `argv`, the program's name
/// first, with `Command::try_get_matches_from`; the value of each option
/// is then read with `ArgMatches::get_one`. Which values come out, or that
/// none do, depends on the arguments alone. Of an error the rendered
/// text, the stream and the exit code are kept. `clap` checks a command
/// before it parses with it and panics where two options share a name, or
/// one takes a name of the help or version flag or a name with a hyphen
/// in front.
#[verifier::external_body]
pub(crate) fn parse_options(
    about: &'static str,
    options: &Vec<OptionSpec>,
    argv: &Vec<String>,
) -> (parsed: Result<Vec<Option<String>>, ArgsError>)
    requires
        are_sound_options(option_spec_views(options@)),
    ensures
        match parsed {
            Ok(values) => values@.len() == options@.len() && option_values(
                about@,
                option_spec_views(options@),
                views(argv@),
            ) == Some(option_views(values@)),
            Err(_) => option_values(about@, option_spec_views(options@), views(argv@)) is None,
        },
{
    let command = options.iter().fold(clap::Command::new(about), |command, option| command.arg(
        clap::Arg::new(option.id).short(option.short).long(option.long)
            .action(clap::ArgAction::Set).help(option.help),
    ));
    let matches = command.try_get_matches_from(argv).map_err(|error| ArgsError {
        message: error.render().to_string(),
        use_stderr: error.use_stderr(),
        exit_code: error.exit_code(),
    })?;
    Ok(options.iter().map(|option| matches.get_one::<String>(option.id).cloned()).collect())
}

/// The views of the values of a command line's options.
pub open spec fn option_views(values: Seq<Option<String>>) -> Seq<Option<Seq<char>>> {
    values.map_values(
        |value: Option<String>|
            match value {
                Some(text) => Some(text@),
                None => None,
            },
    )
}

/// The view of an optional string.
pub open spec fn option_view(value: Option<String>) -> Option<Seq<char>> {
    match value {
        Some(text) => Some(text@),
        None => None,
    }
}

/// Takes the two values out of a list of two.
pub fn take_two(values: Vec<Option<String>>) -> (pair: (Option<String>, Option<String>))
    requires
        values@.len() == 2,
    ensures
        option_view(pair.0) == option_views(values@)[0],
        option_view(pair.1) == option_views(values@)[1],
{
    let mut values = values;
    let second = values.pop();
    let first = values.pop();
    match (first, second) {
        (Some(first), Some(second)) => (first, second),
        _ => (None, None),
    }
}

} // verus!
