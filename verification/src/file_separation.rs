//! Splitting the files of a directory into batches, each in a directory
//! of its own with a random name.

use vstd::prelude::*;
use crate::cli::{
    option_spec_views,
    option_values,
    option_view,
    option_views,
    parse_options,
    take_two,
    is_sound_option,
    are_sound_options,
    ArgsError,
    OptionSpec,
    OptionSpecView,
};
use crate::text::{
    chars_of,
    parse_usize,
    parsed_usize,
    push_all,
    string_from_chars,
    trim,
    trimmed_of,
    views,
};

verus! {

/// What the tool says of itself.
pub const ABOUT: &'static str =
    "Takes a directory and batch size to split files into different directories.";

/// The options of the tool.
pub open spec fn tool_options() -> Seq<OptionSpecView> {
    seq![
        OptionSpecView {
            id: "directory"@,
            short: 'd',
            long: "dir"@,
            help: "Determines the directory to split up."@,
        },
        OptionSpecView {
            id: "split_count"@,
            short: 'b',
            long: "batch"@,
            help: "Sets the batch size for how many files will be in each directory."@,
        },
    ]
}

/// What `clap` makes of a command line of this tool: the values of
/// `--dir` and of `--batch`, in that order, or `None` where it rejects
/// the command line or is asked for the help text.
pub open spec fn separation_arguments(argv: Seq<Seq<char>>) -> Option<Seq<Option<Seq<char>>>> {
    option_values(ABOUT@, tool_options(), argv)
}

/// The batch size that a value of `--batch` stands for: the number that
/// is left when white space is trimmed from both ends.
pub open spec fn batch_size_of(split_count: Option<Seq<char>>) -> Option<usize> {
    match split_count {
        Some(text) => parsed_usize(trimmed_of(text)),
        None => None,
    }
}

/// The arguments of the tool.
pub struct Args {
    directory: Option<String>,
    split_count: Option<String>,
    batch_size: Option<usize>,
}

pub struct ArgsView {
    /// Value of `-d` / `--dir`.
    pub directory: Option<Seq<char>>,
    /// Value of `-b` / `--batch`, as written.
    pub split_count: Option<Seq<char>>,
    /// The number that `split_count` stands for, if it stands for one.
    pub batch_size: Option<usize>,
}

impl View for Args {
    type V = ArgsView;

    closed spec fn view(&self) -> ArgsView {
        ArgsView {
            directory: option_view(self.directory),
            split_count: option_view(self.split_count),
            batch_size: self.batch_size,
        }
    }
}

impl Args {
    /// Parses a command line, the program's name first.
    pub fn new(argv: &Vec<String>) -> (args: Result<Args, ArgsError>)
        ensures
            match args {
                Ok(args) => separation_arguments(views(argv@)) == Some(
                    seq![args@.directory, args@.split_count],
                ) && args@.batch_size == batch_size_of(args@.split_count),
                Err(_) => separation_arguments(views(argv@)) is None,
            },
    {
        match Args::setup_args(argv) {
            Ok(values) => {
                let ghost found = option_views(values@);
                let (directory, split_count) = take_two(values);
                let args = Args::from_values(directory, split_count);
                assert(found =~= seq![args@.directory, args@.split_count]);
                Ok(args)
            },
            Err(error) => Err(error),
        }
    }

    /// The arguments with the given values.
    pub fn from_values(directory: Option<String>, split_count: Option<String>) -> (args: Args)
        ensures
            args@ == (ArgsView {
                directory: option_view(directory),
                split_count: option_view(split_count),
                batch_size: batch_size_of(option_view(split_count)),
            }),
    {
        let batch_size = match &split_count {
            Some(text) => parse_usize(&trim(&chars_of(text.as_str()))),
            None => None,
        };
        Args { directory, split_count, batch_size }
    }

    /// The directory to split up, if one was given.
    pub fn directory(&self) -> (directory: Option<&String>)
        ensures
            match directory {
                Some(directory) => self@.directory == Some(directory@),
                None => self@.directory is None,
            },
    {
        self.directory.as_ref()
    }

    /// The directory to split up.
    pub fn get_directory_path(&self) -> (directory: &String)
        requires
            self@.directory is Some,
        ensures
            self@.directory == Some(directory@),
    {
        match &self.directory {
            Some(directory) => directory,
            None => vstd::pervasive::unreached(),
        }
    }

    /// The batch size, if one was given and it is a number.
    pub fn batch_size(&self) -> (size: Option<usize>)
        ensures
            size == self@.batch_size,
    {
        self.batch_size
    }

    /// The number of files that go into one directory.
    pub fn get_batch_size(&self) -> (size: usize)
        requires
            self@.batch_size is Some,
        ensures
            self@.batch_size == Some(size),
    {
        match self.batch_size {
            Some(size) => size,
            None => vstd::pervasive::unreached(),
        }
    }

    /// Parses `argv` with the options of the tool.
    fn setup_args(argv: &Vec<String>) -> (parsed: Result<Vec<Option<String>>, ArgsError>)
        ensures
            match parsed {
                Ok(values) => values@.len() == 2 && separation_arguments(views(argv@)) == Some(
                    option_views(values@),
                ),
                Err(_) => separation_arguments(views(argv@)) is None,
            },
    {
        let mut options: Vec<OptionSpec> = Vec::new();
        options.push(
            OptionSpec {
                id: "directory",
                short: 'd',
                long: "dir",
                help: "Determines the directory to split up.",
            },
        );
        options.push(
            OptionSpec {
                id: "split_count",
                short: 'b',
                long: "batch",
                help: "Sets the batch size for how many files will be in each directory.",
            },
        );
        proof {
            reveal_strlit("batch");
            reveal_strlit("dir");
            reveal_strlit("directory");
            reveal_strlit("help");
            reveal_strlit("split_count");
            reveal_strlit("version");
            assert("batch"@.len() == 5 && "batch"@[0] == 'b');
            assert("dir"@.len() == 3 && "dir"@[0] == 'd');
            assert("directory"@.len() == 9 && "directory"@[0] == 'd');
            assert("help"@.len() == 4 && "help"@[0] == 'h');
            assert("split_count"@.len() == 11 && "split_count"@[0] == 's');
            assert("version"@.len() == 7 && "version"@[0] == 'v');
            assert(option_spec_views(options@) =~= tool_options());
            assert(is_sound_option(tool_options()[0]));
            assert(is_sound_option(tool_options()[1]));
            assert(are_sound_options(tool_options()));
        }
        parse_options(ABOUT, &options, argv)
    }
}

/// `c` is an ASCII letter or digit.
pub open spec fn is_alphanumeric(c: char) -> bool {
    ||| 48 <= c as u32 <= 57
    ||| 65 <= c as u32 <= 90
    ||| 97 <= c as u32 <= 122
}

/// Draws `length` characters with `rand::distributions::Alphanumeric`
/// from the generator of this thread: each is an ASCII letter or digit.
/// Which ones is left to chance.
#[verifier::external_body]
fn sample_alphanumeric(length: usize) -> (name: String)
    ensures
        name@.len() == length,
        forall|i: int| 0 <= i < name@.len() ==> is_alphanumeric(#[trigger] name@[i]),
{
    rand::Rng::sample_iter(rand::thread_rng(), &rand::distributions::Alphanumeric)
        .take(length)
        .map(char::from)
        .collect()
}

/// A random name of `length` ASCII letters and digits.
pub fn generate_random_string(length: usize) -> (name: String)
    ensures
        name@.len() == length,
        forall|i: int| 0 <= i < name@.len() ==> is_alphanumeric(#[trigger] name@[i]),
{
    sample_alphanumeric(length)
}

/// Directory of a batch: `<directory>/<name>`.
pub open spec fn batch_directory_of(directory: Seq<char>, name: Seq<char>) -> Seq<char> {
    directory + seq!['/'] + name
}

/// Directory of a batch.
pub fn batch_directory(directory: &str, name: &str) -> (path: String)
    ensures
        path@ == batch_directory_of(directory@, name@),
{
    let mut path = chars_of(directory);
    path.push('/');
    push_all(&mut path, &chars_of(name));
    string_from_chars(&path)
}

/// `items` cut into consecutive batches of `size`, the last one holding
/// what is left.
pub open spec fn chunked(items: Seq<Seq<char>>, size: nat) -> Seq<Seq<Seq<char>>>
    decreases items.len(),
{
    if size == 0 || items.len() == 0 {
        Seq::empty()
    } else if items.len() <= size {
        seq![items]
    } else {
        seq![items.take(size as int)] + chunked(items.skip(size as int), size)
    }
}

/// The views of a sequence of batches.
pub open spec fn batch_views(batches: Seq<Vec<String>>) -> Seq<Seq<Seq<char>>> {
    batches.map_values(|batch: Vec<String>| views(batch@))
}

/// Cuts `paths` into batches with `itertools::Itertools::chunks`, which
/// yields the items `size` at a time, in order, the last batch being
/// shorter when the items run out. With `size` zero it panics.
#[verifier::external_body]
fn chunks(paths: Vec<String>, size: usize) -> (batches: Vec<Vec<String>>)
    requires
        size > 0,
    ensures
        batch_views(batches@) == chunked(views(paths@), size as nat),
{
    itertools::Itertools::chunks(paths.into_iter(), size)
        .into_iter()
        .map(|chunk| chunk.collect())
        .collect()
}

/// Length of the random name of a batch directory.
pub const BATCH_NAME_LENGTH: usize = 10;

/// One batch: the directory made for it and the files that go there.
#[derive(Clone, Debug, PartialEq, Eq)]
pub struct Batch {
    pub directory: String,
    pub files: Vec<String>,
}

/// `path` is `directory`, a slash, and a name of ten ASCII letters and
/// digits.
pub open spec fn is_batch_directory(directory: Seq<char>, path: Seq<char>) -> bool {
    exists|name: Seq<char>|
        #![trigger batch_directory_of(directory, name)]
        name.len() == BATCH_NAME_LENGTH && (forall|i: int|
            0 <= i < name.len() ==> is_alphanumeric(#[trigger] name[i])) && path
            == batch_directory_of(directory, name)
}

/// A copy of `strings`.
pub fn clone_strings(strings: &Vec<String>) -> (copy: Vec<String>)
    ensures
        views(copy@) == views(strings@),
{
    let mut copy: Vec<String> = Vec::new();
    let mut i: usize = 0;
    while i < strings.len()
        invariant
            i <= strings.len(),
            copy@.len() == i,
            forall|k: int| 0 <= k < i ==> copy@[k]@ == strings@[k]@,
        decreases strings.len() - i,
    {
        copy.push(strings[i].clone());
        i += 1;
    }
    assert(views(copy@) =~= views(strings@));
    copy
}

/// The batches that the files of `directory` are split into: `paths` cut
/// into consecutive batches of `batch_size`, each with a directory of a
/// fresh random name below `directory`.
pub fn plan_batches(directory: &str, paths: Vec<String>, batch_size: usize) -> (plan: Vec<Batch>)
    requires
        batch_size > 0,
    ensures
        plan@.len() == chunked(views(paths@), batch_size as nat).len(),
        forall|i: int|
            0 <= i < plan@.len() ==> views((#[trigger] plan@[i]).files@) == chunked(
                views(paths@),
                batch_size as nat,
            )[i] && is_batch_directory(directory@, plan@[i].directory@),
{
    let ghost wanted = chunked(views(paths@), batch_size as nat);
    let files = chunks(paths, batch_size);
    let mut plan: Vec<Batch> = Vec::new();
    let mut i: usize = 0;
    while i < files.len()
        invariant
            i <= files.len(),
            plan@.len() == i,
            batch_views(files@) == wanted,
            forall|k: int|
                0 <= k < i ==> views((#[trigger] plan@[k]).files@) == wanted[k]
                    && is_batch_directory(directory@, plan@[k].directory@),
        decreases files.len() - i,
    {
        let name = generate_random_string(BATCH_NAME_LENGTH);
        let batch = Batch {
            directory: batch_directory(directory, name.as_str()),
            files: clone_strings(&files[i]),
        };
        assert(batch.directory@ == batch_directory_of(directory@, name@));
        assert(batch_views(files@)[i as int] == views(files@[i as int]@));
        plan.push(batch);
        i += 1;
    }
    plan
}

/// Every file is in exactly one batch, in its old order: the batches
/// laid end to end are the files.
pub proof fn lemma_chunks_keep_everything(items: Seq<Seq<char>>, size: nat)
    requires
        size > 0,
    ensures
        chunked(items, size).flatten() == items,
        forall|i: int|
            0 <= i < chunked(items, size).len() ==> 0 < (#[trigger] chunked(items, size)[i]).len()
                <= size,
    decreases items.len(),
{
    if items.len() == 0 {
        assert(chunked(items, size).flatten() =~= items);
    } else if items.len() <= size {
        assert(seq![items].flatten() =~= items) by {
            assert(seq![items].drop_first() =~= Seq::<Seq<Seq<char>>>::empty());
            assert(seq![items].flatten() == items + Seq::<Seq<Seq<char>>>::empty().flatten());
        }
    } else {
        let head = items.take(size as int);
        let tail = items.skip(size as int);
        lemma_chunks_keep_everything(tail, size);
        let rest = chunked(tail, size);
        assert((seq![head] + rest).drop_first() =~= rest);
        assert((seq![head] + rest).flatten() == head + rest.flatten());
        assert(head + tail =~= items);
        assert forall|i: int| 0 <= i < chunked(items, size).len() implies 0 < (
        #[trigger] chunked(items, size)[i]).len() <= size by {
            if i > 0 {
                assert(chunked(items, size)[i] == rest[i - 1]);
            }
        }
    }
}

} // verus!
