//! Moving every file below a directory into one directory.

use vstd::prelude::*;
use crate::cli::{
    option_spec_views,
    option_values,
    option_view,
    option_views,
    parse_options,
    take_two,
    is_sound_option,
    are_sound_options,
    ArgsError,
    OptionSpec,
    OptionSpecView,
};
use crate::text::{chars_of, push_all, string_from_chars, views};

verus! {

/// What the tool says of itself.
pub const ABOUT: &'static str =
    "Recursively flattens all files under a directory to be at a given destination.";

/// The options of the tool.
pub open spec fn tool_options() -> Seq<OptionSpecView> {
    seq![
        OptionSpecView {
            id: "directory"@,
            short: 'd',
            long: "dir"@,
            help: "Determines the directory to flatten."@,
        },
        OptionSpecView {
            id: "custom_dir"@,
            short: 'm',
            long: "dest"@,
            help: "Sets a custom destination to move the files to."@,
        },
    ]
}

/// What `clap` makes of a command line of this tool: the values of
/// `--dir` and of `--dest`, in that order, or `None` where it rejects the
/// command line or is asked for the help text.
pub open spec fn flattener_arguments(argv: Seq<Seq<char>>) -> Option<Seq<Option<Seq<char>>>> {
    option_values(ABOUT@, tool_options(), argv)
}

/// The arguments of the tool.
pub struct Args {
    directory: Option<String>,
    custom_dir: Option<String>,
}

pub struct ArgsView {
    /// Value of `-d` / `--dir`.
    pub directory: Option<Seq<char>>,
    /// Value of `-m` / `--dest`.
    pub custom_destination: Option<Seq<char>>,
}

impl View for Args {
    type V = ArgsView;

    closed spec fn view(&self) -> ArgsView {
        ArgsView {
            directory: option_view(self.directory),
            custom_destination: option_view(self.custom_dir),
        }
    }
}

impl Args {
    /// Parses a command line, the program's name first.
    pub fn new(argv: &Vec<String>) -> (args: Result<Args, ArgsError>)
        ensures
            match args {
                Ok(args) => flattener_arguments(views(argv@)) == Some(
                    seq![args@.directory, args@.custom_destination],
                ),
                Err(_) => flattener_arguments(views(argv@)) is None,
            },
    {
        match Args::setup_args(argv) {
            Ok(values) => {
                let ghost found = option_views(values@);
                let (directory, custom_dir) = take_two(values);
                let args = Args::from_values(directory, custom_dir);
                assert(found =~= seq![args@.directory, args@.custom_destination]);
                Ok(args)
            },
            Err(error) => Err(error),
        }
    }

    /// The arguments with the given values.
    pub fn from_values(directory: Option<String>, custom_destination: Option<String>) -> (args:
        Args)
        ensures
            args@ == (ArgsView {
                directory: option_view(directory),
                custom_destination: option_view(custom_destination),
            }),
    {
        Args { directory, custom_dir: custom_destination }
    }

    /// The directory to flatten, if one was given.
    pub fn directory(&self) -> (directory: Option<&String>)
        ensures
            match directory {
                Some(directory) => self@.directory == Some(directory@),
                None => self@.directory is None,
            },
    {
        self.directory.as_ref()
    }

    /// The directory to flatten.
    pub fn get_directory_path(&self) -> (directory: &String)
        requires
            self@.directory is Some,
        ensures
            self@.directory == Some(directory@),
    {
        match &self.directory {
            Some(directory) => directory,
            None => vstd::pervasive::unreached(),
        }
    }

    /// The directory to move the files to, if another than the one that
    /// is flattened.
    pub fn get_custom_destination(&self) -> (destination: &Option<String>)
        ensures
            option_view(*destination) == self@.custom_destination,
    {
        &self.custom_dir
    }

    /// Parses `argv` with the options of the tool.
    fn setup_args(argv: &Vec<String>) -> (parsed: Result<Vec<Option<String>>, ArgsError>)
        ensures
            match parsed {
                Ok(values) => values@.len() == 2 && flattener_arguments(views(argv@)) == Some(
                    option_views(values@),
                ),
                Err(_) => flattener_arguments(views(argv@)) is None,
            },
    {
        let mut options: Vec<OptionSpec> = Vec::new();
        options.push(
            OptionSpec {
                id: "directory",
                short: 'd',
                long: "dir",
                help: "Determines the directory to flatten.",
            },
        );
        options.push(
            OptionSpec {
                id: "custom_dir",
                short: 'm',
                long: "dest",
                help: "Sets a custom destination to move the files to.",
            },
        );
        proof {
            reveal_strlit("custom_dir");
            reveal_strlit("dest");
            reveal_strlit("dir");
            reveal_strlit("directory");
            reveal_strlit("help");
            reveal_strlit("version");
            assert("custom_dir"@.len() == 10 && "custom_dir"@[0] == 'c');
            assert("dest"@.len() == 4 && "dest"@[0] == 'd');
            assert("dir"@.len() == 3 && "dir"@[0] == 'd');
            assert("directory"@.len() == 9 && "directory"@[0] == 'd');
            assert("help"@.len() == 4 && "help"@[0] == 'h');
            assert("version"@.len() == 7 && "version"@[0] == 'v');
            assert(option_spec_views(options@) =~= tool_options());
            assert(is_sound_option(tool_options()[0]));
            assert(is_sound_option(tool_options()[1]));
            assert(are_sound_options(tool_options()));
        }
        parse_options(ABOUT, &options, argv)
    }
}

/// The directory that receives the files: the custom destination where
/// one is given, else the flattened directory itself.
pub open spec fn destination_of(args: ArgsView) -> Seq<char>
    recommends
        args.directory is Some,
{
    match args.custom_destination {
        Some(destination) => destination,
        None => args.directory->0,
    }
}

/// The directory that receives the files.
pub fn destination<'a>(args: &'a Args) -> (destination: &'a String)
    requires
        args@.directory is Some,
    ensures
        destination@ == destination_of(args@),
{
    match args.get_custom_destination() {
        Some(destination) => destination,
        None => args.get_directory_path(),
    }
}

/// Where a file called `file_name` goes: `<destination>/<file_name>`.
pub open spec fn flattened_path(destination: Seq<char>, file_name: Seq<char>) -> Seq<char> {
    destination + seq!['/'] + file_name
}

/// Where a file called `file_name` goes.
pub fn new_location(destination: &str, file_name: &str) -> (path: String)
    ensures
        path@ == flattened_path(destination@, file_name@),
{
    let mut path = chars_of(destination);
    path.push('/');
    push_all(&mut path, &chars_of(file_name));
    string_from_chars(&path)
}

} // verus!
