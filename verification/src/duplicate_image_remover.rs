//! Finding images that look alike by their perceptual hash, and picking
//! the ones to move away.

use vstd::prelude::*;
use crate::cli::{
    option_spec_views,
    option_values,
    option_view,
    option_views,
    parse_options,
    take_two,
    is_sound_option,
    are_sound_options,
    ArgsError,
    OptionSpec,
    OptionSpecView,
};
use crate::text::{chars_of, same_chars, views};

verus! {

/// What the tool says of itself.
pub const ABOUT: &'static str =
    "Just the surface level directory given for duplicate images, and moves them to the given destination.";

/// The options of the tool.
pub open spec fn tool_options() -> Seq<OptionSpecView> {
    seq![
        OptionSpecView {
            id: "directory"@,
            short: 'd',
            long: "dir"@,
            help: "Determines the directory to remove duplicates from."@,
        },
        OptionSpecView {
            id: "destination"@,
            short: 'm',
            long: "dest"@,
            help: "Sets a custom destination to move the duplicate files to."@,
        },
    ]
}

/// What `clap` makes of a command line of this tool: the values of
/// `--dir` and of `--dest`, in that order, or `None` where it rejects the
/// command line or is asked for the help text.
pub open spec fn remover_arguments(argv: Seq<Seq<char>>) -> Option<Seq<Option<Seq<char>>>> {
    option_values(ABOUT@, tool_options(), argv)
}

/// The top-level media type that `mime_guess` guesses first for a path,
/// if it guesses any.
pub uninterp spec fn guessed_media_type(path: Seq<char>) -> Option<Seq<char>>;

/// The arguments of the tool.
pub struct Args {
    directory: Option<String>,
    destination: Option<String>,
}

pub struct ArgsView {
    /// Value of `-d` / `--dir`.
    pub directory: Option<Seq<char>>,
    /// Value of `-m` / `--dest`.
    pub destination: Option<Seq<char>>,
}

impl View for Args {
    type V = ArgsView;

    closed spec fn view(&self) -> ArgsView {
        ArgsView {
            directory: option_view(self.directory),
            destination: option_view(self.destination),
        }
    }
}

impl Args {
    /// Parses a command line, the program's name first.
    pub fn new(argv: &Vec<String>) -> (args: Result<Args, ArgsError>)
        ensures
            match args {
                Ok(args) => remover_arguments(views(argv@)) == Some(
                    seq![args@.directory, args@.destination],
                ),
                Err(_) => remover_arguments(views(argv@)) is None,
            },
    {
        match Args::setup_args(argv) {
            Ok(values) => {
                let ghost found = option_views(values@);
                let (directory, destination) = take_two(values);
                let args = Args::from_values(directory, destination);
                assert(found =~= seq![args@.directory, args@.destination]);
                Ok(args)
            },
            Err(error) => Err(error),
        }
    }

    /// The arguments with the given values.
    pub fn from_values(directory: Option<String>, destination: Option<String>) -> (args: Args)
        ensures
            args@ == (ArgsView {
                directory: option_view(directory),
                destination: option_view(destination),
            }),
    {
        Args { directory, destination }
    }

    /// The directory to search, if one was given.
    pub fn directory(&self) -> (directory: Option<&String>)
        ensures
            match directory {
                Some(directory) => self@.directory == Some(directory@),
                None => self@.directory is None,
            },
    {
        self.directory.as_ref()
    }

    /// The directory to search.
    pub fn get_directory_path(&self) -> (directory: &String)
        requires
            self@.directory is Some,
        ensures
            self@.directory == Some(directory@),
    {
        match &self.directory {
            Some(directory) => directory,
            None => vstd::pervasive::unreached(),
        }
    }

    /// The directory to move the duplicates to, if another than the one
    /// that is searched.
    pub fn get_destination_path(&self) -> (destination: &Option<String>)
        ensures
            option_view(*destination) == self@.destination,
    {
        &self.destination
    }

    /// Parses `argv` with the options of the tool.
    fn setup_args(argv: &Vec<String>) -> (parsed: Result<Vec<Option<String>>, ArgsError>)
        ensures
            match parsed {
                Ok(values) => values@.len() == 2 && remover_arguments(views(argv@)) == Some(
                    option_views(values@),
                ),
                Err(_) => remover_arguments(views(argv@)) is None,
            },
    {
        let mut options: Vec<OptionSpec> = Vec::new();
        options.push(
            OptionSpec {
                id: "directory",
                short: 'd',
                long: "dir",
                help: "Determines the directory to remove duplicates from.",
            },
        );
        options.push(
            OptionSpec {
                id: "destination",
                short: 'm',
                long: "dest",
                help: "Sets a custom destination to move the duplicate files to.",
            },
        );
        proof {
            reveal_strlit("dest");
            reveal_strlit("destination");
            reveal_strlit("dir");
            reveal_strlit("directory");
            reveal_strlit("help");
            reveal_strlit("version");
            assert("dest"@.len() == 4 && "dest"@[0] == 'd');
            assert("destination"@.len() == 11 && "destination"@[0] == 'd');
            assert("dir"@.len() == 3 && "dir"@[0] == 'd');
            assert("directory"@.len() == 9 && "directory"@[0] == 'd');
            assert("help"@.len() == 4 && "help"@[0] == 'h');
            assert("version"@.len() == 7 && "version"@[0] == 'v');
            assert(option_spec_views(options@) =~= tool_options());
            assert(is_sound_option(tool_options()[0]));
            assert(is_sound_option(tool_options()[1]));
            assert(are_sound_options(tool_options()));
        }
        parse_options(ABOUT, &options, argv)
    }
}

/// Asks `mime_guess::MimeGuess::from_path` for its first guess and keeps
/// the top-level type of it, such as `image` or `text`. The guess goes by
/// the path's extension and by nothing else.
#[verifier::external_body]
fn first_guess_type(path: &str) -> (kind: Option<String>)
    ensures
        option_view(kind) == guessed_media_type(path@),
{
    mime_guess::MimeGuess::from_path(path).first().map(|mime| mime.type_().as_str().to_string())
}

/// Whether a guessed media type is that of an image.
pub fn is_image_type(kind: &Option<String>) -> (image: bool)
    ensures
        image == (option_view(*kind) == Some("image"@)),
{
    match kind {
        Some(kind) => same_chars(&chars_of(kind.as_str()), &chars_of("image")),
        None => false,
    }
}

/// Whether the path is that of an image, going by its extension.
pub fn path_is_image(path: &str) -> (image: bool)
    ensures
        image == (guessed_media_type(path@) == Some("image"@)),
{
    let kind = first_guess_type(path);
    is_image_type(&kind)
}

/// A file with the perceptual hash of its image.
#[derive(Clone, Debug, PartialEq, Eq)]
pub struct HashedImage {
    pub hash: Vec<u8>,
    pub path: String,
}

pub struct HashedImageView {
    pub hash: Seq<u8>,
    pub path: Seq<char>,
}

impl View for HashedImage {
    type V = HashedImageView;

    open spec fn view(&self) -> HashedImageView {
        HashedImageView { hash: self.hash@, path: self.path@ }
    }
}

/// The views of a sequence of hashed images.
pub open spec fn image_views(images: Seq<HashedImage>) -> Seq<HashedImageView> {
    images.map_values(|image: HashedImage| image@)
}

/// The paths of the images with the given hash, in the order of `images`.
pub open spec fn paths_with_hash(images: Seq<HashedImageView>, hash: Seq<u8>) -> Seq<Seq<char>>
    decreases images.len(),
{
    if images.len() == 0 {
        Seq::empty()
    } else {
        let before = paths_with_hash(images.drop_last(), hash);
        if images.last().hash == hash {
            before.push(images.last().path)
        } else {
            before
        }
    }
}

/// No image before position `at` has the hash of the one at `at`.
pub open spec fn first_of_its_hash(images: Seq<HashedImageView>, at: int) -> bool {
    forall|k: int| 0 <= k < at ==> (#[trigger] images[k]).hash != images[at].hash
}

/// The groups that the first `upto` images open: one for each image that
/// is the first of its hash, holding the paths of all images with that
/// hash, in the order of `images`.
pub open spec fn groups_upto(images: Seq<HashedImageView>, upto: int) -> Seq<Seq<Seq<char>>>
    decreases upto,
{
    if upto <= 0 {
        Seq::empty()
    } else {
        let before = groups_upto(images, upto - 1);
        if first_of_its_hash(images, upto - 1) {
            before.push(paths_with_hash(images, images[upto - 1].hash))
        } else {
            before
        }
    }
}

/// The images grouped by hash: groups in the order in which their hashes
/// first occur, and in each group the paths in the order of `images`.
pub open spec fn groups_of(images: Seq<HashedImageView>) -> Seq<Seq<Seq<char>>> {
    groups_upto(images, images.len() as int)
}

/// The paths of a group that are duplicates: all but the first.
pub open spec fn duplicates_of(group: Seq<Seq<char>>) -> Seq<Seq<char>> {
    if group.len() <= 1 {
        Seq::empty()
    } else {
        group.skip(1)
    }
}

/// The views of a sequence of groups.
pub open spec fn group_views(groups: Seq<Vec<String>>) -> Seq<Seq<Seq<char>>> {
    groups.map_values(|group: Vec<String>| views(group@))
}

/// Whether two hashes are the same.
pub fn same_hash(a: &Vec<u8>, b: &Vec<u8>) -> (same: bool)
    ensures
        same == (a@ == b@),
{
    if a.len() != b.len() {
        return false;
    }
    let mut i: usize = 0;
    while i < a.len()
        invariant
            i <= a.len(),
            a.len() == b.len(),
            forall|k: int| 0 <= k < i ==> a@[k] == b@[k],
        decreases a.len() - i,
    {
        if a[i] != b[i] {
            return false;
        }
        i += 1;
    }
    assert(a@ =~= b@);
    true
}

/// Whether no image before position `at` has the hash of the one at `at`.
fn is_first_of_its_hash(images: &Vec<HashedImage>, at: usize) -> (first: bool)
    requires
        at < images.len(),
    ensures
        first == first_of_its_hash(image_views(images@), at as int),
{
    let mut k: usize = 0;
    while k < at
        invariant
            k <= at < images.len(),
            forall|j: int| 0 <= j < k ==> (#[trigger] image_views(images@)[j]).hash != image_views(
                images@,
            )[at as int].hash,
        decreases at - k,
    {
        if same_hash(&images[k].hash, &images[at].hash) {
            assert(image_views(images@)[k as int].hash == image_views(images@)[at as int].hash);
            return false;
        }
        k += 1;
    }
    true
}

/// The paths of the images with the given hash.
fn collect_paths(images: &Vec<HashedImage>, hash: &Vec<u8>) -> (paths: Vec<String>)
    ensures
        views(paths@) == paths_with_hash(image_views(images@), hash@),
{
    let mut paths: Vec<String> = Vec::new();
    let mut i: usize = 0;
    while i < images.len()
        invariant
            i <= images.len(),
            views(paths@) == paths_with_hash(image_views(images@).take(i as int), hash@),
        decreases images.len() - i,
    {
        assert(image_views(images@).take(i + 1).drop_last() == image_views(images@).take(
            i as int,
        ));
        if same_hash(&images[i].hash, hash) {
            let ghost before = views(paths@);
            paths.push(images[i].path.clone());
            assert(views(paths@) =~= before.push(images[i as int].path@));
        }
        i += 1;
    }
    assert(image_views(images@).take(images@.len() as int) == image_views(images@));
    paths
}

/// Groups the images by hash.
pub fn group_by_hash(images: &Vec<HashedImage>) -> (groups: Vec<Vec<String>>)
    ensures
        group_views(groups@) == groups_of(image_views(images@)),
{
    let mut groups: Vec<Vec<String>> = Vec::new();
    let mut i: usize = 0;
    while i < images.len()
        invariant
            i <= images.len(),
            group_views(groups@) == groups_upto(image_views(images@), i as int),
        decreases images.len() - i,
    {
        if is_first_of_its_hash(images, i) {
            let ghost before = group_views(groups@);
            let group = collect_paths(images, &images[i].hash);
            groups.push(group);
            assert(group_views(groups@) =~= before.push(views(group@)));
        }
        i += 1;
    }
    groups
}

/// The paths of a group that are to be moved away: all but the first.
pub fn duplicates_in(group: &Vec<String>) -> (duplicates: Vec<String>)
    ensures
        views(duplicates@) == duplicates_of(views(group@)),
{
    let mut duplicates: Vec<String> = Vec::new();
    let mut i: usize = 1;
    while i < group.len()
        invariant
            1 <= i,
            i <= group.len() || group.len() == 0,
            duplicates@.len() == if group.len() == 0 { 0 } else { i - 1 },
            forall|k: int| 0 <= k < duplicates@.len() ==> duplicates@[k]@ == group@[k + 1]@,
        decreases group.len() - i,
    {
        duplicates.push(group[i].clone());
        i += 1;
    }
    assert(views(duplicates@) =~= duplicates_of(views(group@)));
    duplicates
}

} // verus!
