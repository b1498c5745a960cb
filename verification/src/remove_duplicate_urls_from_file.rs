//! Rewriting a file of `name: url` lines so that every url is listed once.

use vstd::prelude::*;
use crate::cli::{
    option_spec_views,
    option_values,
    option_view,
    option_views,
    parse_options,
    is_sound_option,
    are_sound_options,
    ArgsError,
    OptionSpec,
    OptionSpecView,
};
use crate::text::{
    chars_of,
    lines,
    lines_of,
    push_all,
    split_at_first,
    split_once,
    string_from_chars,
    vec_views,
    views,
};

verus! {

/// What the tool says of itself.
pub const ABOUT: &'static str =
    "Compares a list of `name: url` in a given file and removes duplicate urls.";

/// The options of the tool.
pub open spec fn tool_options() -> Seq<OptionSpecView> {
    seq![
        OptionSpecView {
            id: "filepath"@,
            short: 'f',
            long: "file"@,
            help: "Takes the file to resort as an argument."@,
        },
    ]
}

/// What `clap` makes of a command line of this tool: the value of
/// `--file`, or `None` where it rejects the command line or is asked for
/// the help text.
pub open spec fn deduplication_arguments(argv: Seq<Seq<char>>) -> Option<Seq<Option<Seq<char>>>> {
    option_values(ABOUT@, tool_options(), argv)
}

/// The arguments of the tool.
pub struct Args {
    filepath: Option<String>,
}

pub struct ArgsView {
    /// Value of `-f` / `--file`.
    pub file_path: Option<Seq<char>>,
}

impl View for Args {
    type V = ArgsView;

    closed spec fn view(&self) -> ArgsView {
        ArgsView { file_path: option_view(self.filepath) }
    }
}

impl Args {
    /// Parses a command line, the program's name first.
    pub fn new(argv: &Vec<String>) -> (args: Result<Args, ArgsError>)
        ensures
            match args {
                Ok(args) => deduplication_arguments(views(argv@)) == Some(seq![args@.file_path]),
                Err(_) => deduplication_arguments(views(argv@)) is None,
            },
    {
        match Args::setup_args(argv) {
            Ok(values) => {
                let ghost found = option_views(values@);
                let mut values = values;
                let file_path = match values.pop() {
                    Some(file_path) => file_path,
                    None => None,
                };
                let args = Args::from_values(file_path);
                assert(found =~= seq![args@.file_path]);
                Ok(args)
            },
            Err(error) => Err(error),
        }
    }

    /// The arguments with the given value.
    pub fn from_values(file_path: Option<String>) -> (args: Args)
        ensures
            args@ == (ArgsView { file_path: option_view(file_path) }),
    {
        Args { filepath: file_path }
    }

    /// The file to rewrite, if one was given.
    pub fn file_path(&self) -> (file_path: Option<&String>)
        ensures
            match file_path {
                Some(file_path) => self@.file_path == Some(file_path@),
                None => self@.file_path is None,
            },
    {
        self.filepath.as_ref()
    }

    /// The file to rewrite.
    pub fn get_file_path(&self) -> (file_path: &String)
        requires
            self@.file_path is Some,
        ensures
            self@.file_path == Some(file_path@),
    {
        match &self.filepath {
            Some(file_path) => file_path,
            None => vstd::pervasive::unreached(),
        }
    }

    /// Parses `argv` with the options of the tool.
    fn setup_args(argv: &Vec<String>) -> (parsed: Result<Vec<Option<String>>, ArgsError>)
        ensures
            match parsed {
                Ok(values) => values@.len() == 1 && deduplication_arguments(views(argv@)) == Some(
                    option_views(values@),
                ),
                Err(_) => deduplication_arguments(views(argv@)) is None,
            },
    {
        let mut options: Vec<OptionSpec> = Vec::new();
        options.push(
            OptionSpec {
                id: "filepath",
                short: 'f',
                long: "file",
                help: "Takes the file to resort as an argument.",
            },
        );
        proof {
            reveal_strlit("file");
            reveal_strlit("filepath");
            reveal_strlit("help");
            reveal_strlit("version");
            assert("file"@.len() == 4 && "file"@[0] == 'f');
            assert("filepath"@.len() == 8 && "filepath"@[0] == 'f');
            assert("help"@.len() == 4 && "help"@[0] == 'h');
            assert("version"@.len() == 7 && "version"@[0] == 'v');
            assert(option_spec_views(options@) =~= tool_options());
            assert(is_sound_option(tool_options()[0]));
            assert(are_sound_options(tool_options()));
        }
        parse_options(ABOUT, &options, argv)
    }
}

/// One line of the file: a name and the url listed under it.
#[derive(Clone, Debug, PartialEq, Eq)]
pub struct UrlEntry {
    pub name: String,
    pub url: String,
}

pub struct UrlEntryView {
    pub name: Seq<char>,
    pub url: Seq<char>,
}

impl View for UrlEntry {
    type V = UrlEntryView;

    open spec fn view(&self) -> UrlEntryView {
        UrlEntryView { name: self.name@, url: self.url@ }
    }
}

/// The views of a sequence of entries.
pub open spec fn url_entry_views(entries: Seq<UrlEntry>) -> Seq<UrlEntryView> {
    entries.map_values(|entry: UrlEntry| entry@)
}

/// How two strings stand to each other in the order of the file.
#[derive(Clone, Copy, Debug, PartialEq, Eq, Structural)]
pub enum Precedence {
    Before,
    Same,
    After,
}

/// `a` comes before `b`: at the first place where they differ `a` has
/// the smaller character, or `a` ends there and `b` goes on.
pub open spec fn precedes(a: Seq<char>, b: Seq<char>) -> bool
    decreases a.len(),
{
    if b.len() == 0 {
        false
    } else if a.len() == 0 {
        true
    } else if a[0] != b[0] {
        (a[0] as u32) < (b[0] as u32)
    } else {
        precedes(a.drop_first(), b.drop_first())
    }
}

/// What a line says: the parts before and after its first `": "`. A line
/// without one says nothing.
pub open spec fn url_entry_of_line(line: Seq<char>) -> Option<UrlEntryView> {
    match split_at_first(line, ": "@) {
        Some((name, url)) => Some(UrlEntryView { name, url }),
        None => None,
    }
}

/// What the lines say, in order, leaving out those that say nothing.
pub open spec fn url_entries_among(lines: Seq<Seq<char>>) -> Seq<UrlEntryView>
    decreases lines.len(),
{
    if lines.len() == 0 {
        Seq::empty()
    } else {
        let before = url_entries_among(lines.drop_last());
        match url_entry_of_line(lines.last()) {
            Some(entry) => before.push(entry),
            None => before,
        }
    }
}

/// The line for an entry: `<name>: <url>`.
pub open spec fn line_of_entry(entry: UrlEntryView) -> Seq<char> {
    entry.name + seq![':', ' '] + entry.url
}

/// The urls go up from each entry to the next, so no url is there twice.
pub open spec fn strictly_sorted(entries: Seq<UrlEntryView>) -> bool {
    forall|i: int, j: int|
        0 <= i < j < entries.len() ==> precedes(
            (#[trigger] entries[i]).url,
            (#[trigger] entries[j]).url,
        )
}

/// The entry at `at` is the first with its url.
pub open spec fn first_with_url(entries: Seq<UrlEntryView>, at: int) -> bool {
    forall|k: int| 0 <= k < at ==> (#[trigger] entries[k]).url != entries[at].url
}

/// `entry` is one of the first `upto` of `entries`, and the first with
/// its url.
pub open spec fn taken_from(entry: UrlEntryView, entries: Seq<UrlEntryView>, upto: int) -> bool {
    exists|k: int|
        0 <= k < upto && first_with_url(entries, k) && #[trigger] entries[k] == entry
}

/// `url` is the url of one of `entries`.
pub open spec fn lists_url(entries: Seq<UrlEntryView>, url: Seq<char>) -> bool {
    exists|j: int| 0 <= j < entries.len() && (#[trigger] entries[j]).url == url
}

/// `kept` is what is left of the first `upto` of `entries` when every url
/// is kept once, under the name it is first listed with, and the entries
/// are put in the order of their urls.
pub open spec fn is_deduplication(
    kept: Seq<UrlEntryView>,
    entries: Seq<UrlEntryView>,
    upto: int,
) -> bool {
    &&& strictly_sorted(kept)
    &&& forall|j: int| 0 <= j < kept.len() ==> taken_from(#[trigger] kept[j], entries, upto)
    &&& forall|k: int| 0 <= k < upto ==> lists_url(kept, (#[trigger] entries[k]).url)
}

/// No string comes before itself.
pub proof fn lemma_precedes_irreflexive(a: Seq<char>)
    ensures
        !precedes(a, a),
    decreases a.len(),
{
    if a.len() > 0 {
        lemma_precedes_irreflexive(a.drop_first());
    }
}

/// What comes before something that comes before a third comes before
/// the third.
pub proof fn lemma_precedes_transitive(a: Seq<char>, b: Seq<char>, c: Seq<char>)
    requires
        precedes(a, b),
        precedes(b, c),
    ensures
        precedes(a, c),
    decreases a.len(),
{
    if a.len() > 0 && a[0] == b[0] && b[0] == c[0] {
        lemma_precedes_transitive(a.drop_first(), b.drop_first(), c.drop_first());
    }
}

/// Two strings that agree on their first `common` characters stand to
/// each other as what follows those characters does.
pub proof fn lemma_precedes_after_common(a: Seq<char>, b: Seq<char>, common: int)
    requires
        0 <= common <= a.len(),
        common <= b.len(),
        a.take(common) == b.take(common),
    ensures
        precedes(a, b) == precedes(a.skip(common), b.skip(common)),
    decreases common,
{
    if common == 0 {
        assert(a.skip(0) =~= a);
        assert(b.skip(0) =~= b);
    } else {
        assert(a[0] == a.take(common)[0]);
        assert(b[0] == b.take(common)[0]);
        assert(a.drop_first().take(common - 1) =~= a.take(common).drop_first());
        assert(b.drop_first().take(common - 1) =~= b.take(common).drop_first());
        lemma_precedes_after_common(a.drop_first(), b.drop_first(), common - 1);
        assert(a.drop_first().skip(common - 1) =~= a.skip(common));
        assert(b.drop_first().skip(common - 1) =~= b.skip(common));
    }
}

/// `entry` is one of `entries`.
pub open spec fn holds_entry(entries: Seq<UrlEntryView>, entry: UrlEntryView) -> bool {
    exists|j: int| 0 <= j < entries.len() && #[trigger] entries[j] == entry
}

/// Every entry that a deduplication keeps is kept by any other
/// deduplication of the same entries.
pub proof fn lemma_kept_by_both(
    first: Seq<UrlEntryView>,
    second: Seq<UrlEntryView>,
    entries: Seq<UrlEntryView>,
    at: int,
)
    requires
        is_deduplication(first, entries, entries.len() as int),
        is_deduplication(second, entries, entries.len() as int),
        0 <= at < first.len(),
    ensures
        holds_entry(second, first[at]),
{
    let entry = first[at];
    assert(taken_from(entry, entries, entries.len() as int));
    let k = choose|k: int|
        0 <= k < entries.len() && first_with_url(entries, k) && #[trigger] entries[k] == entry;
    assert(lists_url(second, entries[k].url));
    let j = choose|j: int| 0 <= j < second.len() && (#[trigger] second[j]).url == entry.url;
    assert(taken_from(second[j], entries, entries.len() as int));
    let other = choose|other: int|
        0 <= other < entries.len() && first_with_url(entries, other) && #[trigger] entries[other]
            == second[j];
    if other < k {
        assert(entries[other].url != entries[k].url);
    } else if k < other {
        assert(entries[k].url != entries[other].url);
    }
    assert(second[j] == entry);
}

/// Two sequences in the strict order of their urls that hold the same
/// entries are the same sequence.
pub proof fn lemma_sorted_with_same_entries(a: Seq<UrlEntryView>, b: Seq<UrlEntryView>)
    requires
        strictly_sorted(a),
        strictly_sorted(b),
        forall|i: int| 0 <= i < a.len() ==> holds_entry(b, #[trigger] a[i]),
        forall|j: int| 0 <= j < b.len() ==> holds_entry(a, #[trigger] b[j]),
    ensures
        a == b,
    decreases a.len(),
{
    if a.len() == 0 {
        if b.len() > 0 {
            assert(holds_entry(a, b[0]));
        }
        assert(a =~= b);
    } else {
        let last = a.len() - 1;
        assert(holds_entry(b, a[last]));
        let j = choose|j: int| 0 <= j < b.len() && #[trigger] b[j] == a[last];
        let end = b.len() - 1;
        assert(holds_entry(a, b[end]));
        let i = choose|i: int| 0 <= i < a.len() && #[trigger] a[i] == b[end];
        if j < end {
            assert(precedes(b[j].url, b[end].url));
            if i < last {
                assert(precedes(a[i].url, a[last].url));
                lemma_precedes_transitive(a[last].url, a[i].url, a[last].url);
            }
            lemma_precedes_irreflexive(a[last].url);
        }
        assert(b[end] == a[last]);
        let shorter_a = a.drop_last();
        let shorter_b = b.drop_last();
        assert forall|x: int| 0 <= x < shorter_a.len() implies holds_entry(
            shorter_b,
            #[trigger] shorter_a[x],
        ) by {
            assert(holds_entry(b, a[x]));
            let y = choose|y: int| 0 <= y < b.len() && #[trigger] b[y] == a[x];
            if y == end {
                assert(precedes(a[x].url, a[last].url));
                lemma_precedes_irreflexive(a[last].url);
            }
            assert(shorter_b[y] == shorter_a[x]);
        }
        assert forall|y: int| 0 <= y < shorter_b.len() implies holds_entry(
            shorter_a,
            #[trigger] shorter_b[y],
        ) by {
            assert(holds_entry(a, b[y]));
            let x = choose|x: int| 0 <= x < a.len() && #[trigger] a[x] == b[y];
            if x == last {
                assert(precedes(b[y].url, b[end].url));
                lemma_precedes_irreflexive(b[end].url);
            }
            assert(shorter_a[x] == shorter_b[y]);
        }
        assert(strictly_sorted(shorter_a)) by {
            assert forall|x: int, y: int| 0 <= x < y < shorter_a.len() implies precedes(
                (#[trigger] shorter_a[x]).url,
                (#[trigger] shorter_a[y]).url,
            ) by {
                assert(precedes(a[x].url, a[y].url));
            }
        }
        assert(strictly_sorted(shorter_b)) by {
            assert forall|x: int, y: int| 0 <= x < y < shorter_b.len() implies precedes(
                (#[trigger] shorter_b[x]).url,
                (#[trigger] shorter_b[y]).url,
            ) by {
                assert(precedes(b[x].url, b[y].url));
            }
        }
        lemma_sorted_with_same_entries(shorter_a, shorter_b);
        assert(a =~= shorter_a.push(a[last]));
        assert(b =~= shorter_b.push(b[end]));
    }
}

/// Only one sequence is the deduplication of given entries.
pub proof fn lemma_deduplication_is_unique(
    first: Seq<UrlEntryView>,
    second: Seq<UrlEntryView>,
    entries: Seq<UrlEntryView>,
)
    requires
        is_deduplication(first, entries, entries.len() as int),
        is_deduplication(second, entries, entries.len() as int),
    ensures
        first == second,
{
    assert forall|i: int| 0 <= i < first.len() implies holds_entry(second, #[trigger] first[i]) by {
        lemma_kept_by_both(first, second, entries, i);
    }
    assert forall|j: int| 0 <= j < second.len() implies holds_entry(first, #[trigger] second[j]) by {
        lemma_kept_by_both(second, first, entries, j);
    }
    lemma_sorted_with_same_entries(first, second);
}

/// Different characters have different numbers.
pub proof fn lemma_distinct_codes(c: char, d: char)
    requires
        c != d,
    ensures
        c as u32 != d as u32,
{
}

/// How `a` stands to `b` in the order of the file.
pub fn precedence(a: &Vec<char>, b: &Vec<char>) -> (order: Precedence)
    ensures
        match order {
            Precedence::Before => precedes(a@, b@),
            Precedence::Same => a@ == b@,
            Precedence::After => precedes(b@, a@),
        },
{
    let mut i: usize = 0;
    while i < a.len() && i < b.len()
        invariant
            i <= a.len(),
            i <= b.len(),
            a@.take(i as int) == b@.take(i as int),
        decreases a.len() - i,
    {
        let ours: char = a[i];
        let theirs: char = b[i];
        if ours != theirs {
            proof {
                lemma_precedes_after_common(a@, b@, i as int);
                lemma_precedes_after_common(b@, a@, i as int);
                assert(a@.skip(i as int)[0] == ours);
                assert(b@.skip(i as int)[0] == theirs);
                lemma_distinct_codes(ours, theirs);
            }
            if (ours as u32) < (theirs as u32) {
                return Precedence::Before;
            } else {
                return Precedence::After;
            }
        }
        assert(a@.take(i + 1) =~= a@.take(i as int).push(a@[i as int]));
        assert(b@.take(i + 1) =~= b@.take(i as int).push(b@[i as int]));
        i += 1;
    }
    proof {
        lemma_precedes_after_common(a@, b@, i as int);
        lemma_precedes_after_common(b@, a@, i as int);
    }
    if a.len() == b.len() {
        assert(a@ =~= a@.take(i as int));
        assert(b@ =~= b@.take(i as int));
        Precedence::Same
    } else if a.len() < b.len() {
        Precedence::Before
    } else {
        Precedence::After
    }
}

/// What one line says.
pub fn parse_url_line(line: &Vec<char>) -> (entry: Option<UrlEntry>)
    ensures
        match entry {
            Some(entry) => url_entry_of_line(line@) == Some(entry@),
            None => url_entry_of_line(line@) is None,
        },
{
    match split_once(line, &chars_of(": ")) {
        Some((name, url)) => Some(
            UrlEntry { name: string_from_chars(&name), url: string_from_chars(&url) },
        ),
        None => None,
    }
}

/// What a file says: one entry for each line with a `": "` in it.
pub fn parse_url_entries(contents: &str) -> (entries: Vec<UrlEntry>)
    ensures
        url_entry_views(entries@) == url_entries_among(lines_of(contents@)),
{
    let all = lines(&chars_of(contents));
    let mut entries: Vec<UrlEntry> = Vec::new();
    let mut i: usize = 0;
    while i < all.len()
        invariant
            i <= all.len(),
            vec_views(all@) == lines_of(contents@),
            url_entry_views(entries@) == url_entries_among(vec_views(all@).take(i as int)),
        decreases all.len() - i,
    {
        assert(vec_views(all@).take(i + 1).drop_last() == vec_views(all@).take(i as int));
        match parse_url_line(&all[i]) {
            Some(entry) => {
                let ghost before = url_entry_views(entries@);
                entries.push(entry);
                assert(url_entry_views(entries@) =~= before.push(entry@));
            },
            None => {},
        }
        i += 1;
    }
    assert(vec_views(all@).take(all@.len() as int) == vec_views(all@));
    entries
}

/// The place of `url` among sorted entries: the number of entries whose
/// url comes before it, and whether the entry at that place has it.
fn place_of(kept: &Vec<UrlEntry>, url: &Vec<char>) -> (place: (usize, bool))
    requires
        strictly_sorted(url_entry_views(kept@)),
    ensures
        place.0 <= kept@.len(),
        forall|q: int| 0 <= q < place.0 ==> precedes(url_entry_views(kept@)[q].url, url@),
        place.1 ==> place.0 < kept@.len() && url_entry_views(kept@)[place.0 as int].url == url@,
        !place.1 ==> forall|q: int|
            place.0 <= q < kept@.len() ==> precedes(url@, url_entry_views(kept@)[q].url),
{
    let ghost views = url_entry_views(kept@);
    let mut at: usize = 0;
    while at < kept.len()
        invariant
            at <= kept.len(),
            views == url_entry_views(kept@),
            strictly_sorted(views),
            forall|q: int| 0 <= q < at ==> precedes(views[q].url, url@),
        decreases kept.len() - at,
    {
        let have = chars_of(kept[at].url.as_str());
        assert(views[at as int].url == have@);
        match precedence(&have, url) {
            Precedence::Before => {},
            Precedence::Same => {
                return (at, true);
            },
            Precedence::After => {
                assert forall|q: int| at <= q < kept@.len() implies precedes(
                    url@,
                    views[q].url,
                ) by {
                    if q > at {
                        assert(precedes(views[at as int].url, views[q].url));
                        lemma_precedes_transitive(url@, views[at as int].url, views[q].url);
                    }
                }
                return (at, false);
            },
        }
        at += 1;
    }
    (at, false)
}

/// The entries with every url kept once, under the name it is first
/// listed with, in the order of the urls.
pub fn sort_and_deduplicate(entries: &Vec<UrlEntry>) -> (kept: Vec<UrlEntry>)
    ensures
        is_deduplication(
            url_entry_views(kept@),
            url_entry_views(entries@),
            entries@.len() as int,
        ),
{
    let ghost all = url_entry_views(entries@);
    let mut kept: Vec<UrlEntry> = Vec::new();
    let mut i: usize = 0;
    while i < entries.len()
        invariant
            i <= entries.len(),
            all == url_entry_views(entries@),
            is_deduplication(url_entry_views(kept@), all, i as int),
        decreases entries.len() - i,
    {
        let entry = &entries[i];
        let url = chars_of(entry.url.as_str());
        let ghost before = url_entry_views(kept@);
        assert(all[i as int] == entry@);
        let (at, found) = place_of(&kept, &url);
        if found {
            proof {
                assert forall|j: int| 0 <= j < before.len() implies taken_from(
                    #[trigger] before[j],
                    all,
                    i + 1,
                ) by {
                    assert(taken_from(before[j], all, i as int));
                    let k = choose|k: int|
                        0 <= k < i && first_with_url(all, k) && #[trigger] all[k] == before[j];
                    assert(0 <= k < i + 1 && first_with_url(all, k) && all[k] == before[j]);
                }
                assert forall|k: int| 0 <= k < i + 1 implies lists_url(
                    before,
                    (#[trigger] all[k]).url,
                ) by {
                    if k == i {
                        assert(before[at as int].url == all[k].url);
                    }
                }
            }
        } else {
            let copy = UrlEntry { name: entry.name.clone(), url: entry.url.clone() };
            kept.insert(at, copy);
            proof {
                let after = url_entry_views(kept@);
                before.insert_ensures(at as int, entry@);
                assert(after =~= before.insert(at as int, entry@));
                assert forall|j: int| 0 <= j < after.len() implies #[trigger] after[j] == (if j
                    < at {
                    before[j]
                } else if j == at {
                    entry@
                } else {
                    before[j - 1]
                }) by {}
                assert forall|q: int| 0 <= q < before.len() implies (#[trigger] before[q]).url
                    != url@ by {
                    if q < at {
                        lemma_precedes_irreflexive(url@);
                    } else {
                        lemma_precedes_irreflexive(url@);
                    }
                }
                assert(strictly_sorted(after)) by {
                    assert forall|a: int, b: int| 0 <= a < b < after.len() implies precedes(
                        (#[trigger] after[a]).url,
                        (#[trigger] after[b]).url,
                    ) by {
                        let from = if a < at {
                            a
                        } else {
                            a - 1
                        };
                        let to = if b < at {
                            b
                        } else {
                            b - 1
                        };
                        if a != at && b != at {
                            assert(precedes(before[from].url, before[to].url));
                        } else if a == at {
                            assert(precedes(url@, before[to].url));
                        } else {
                            assert(precedes(before[from].url, url@));
                        }
                    }
                }
                assert(first_with_url(all, i as int)) by {
                    assert forall|k: int| 0 <= k < i implies (#[trigger] all[k]).url != all[i as int].url by {
                        assert(lists_url(before, all[k].url));
                        let j = choose|j: int|
                            0 <= j < before.len() && (#[trigger] before[j]).url == all[k].url;
                        assert(before[j].url != url@);
                    }
                }
                assert forall|j: int| 0 <= j < after.len() implies taken_from(
                    #[trigger] after[j],
                    all,
                    i + 1,
                ) by {
                    if j == at {
                        assert(0 <= i < i + 1 && first_with_url(all, i as int) && all[i as int]
                            == after[j]);
                    } else {
                        let from = if j < at {
                            j
                        } else {
                            j - 1
                        };
                        assert(taken_from(before[from], all, i as int));
                        let k = choose|k: int|
                            0 <= k < i && first_with_url(all, k) && #[trigger] all[k]
                                == before[from];
                        assert(0 <= k < i + 1 && first_with_url(all, k) && all[k] == after[j]);
                    }
                }
                assert forall|k: int| 0 <= k < i + 1 implies lists_url(
                    after,
                    (#[trigger] all[k]).url,
                ) by {
                    if k == i {
                        assert(after[at as int].url == all[k].url);
                    } else {
                        assert(lists_url(before, all[k].url));
                        let j = choose|j: int|
                            0 <= j < before.len() && (#[trigger] before[j]).url == all[k].url;
                        let to = if j < at {
                            j
                        } else {
                            j + 1
                        };
                        assert(after[to].url == all[k].url);
                    }
                }
            }
        }
        i += 1;
    }
    kept
}

/// The line for an entry.
pub fn format_entry(entry: &UrlEntry) -> (line: String)
    ensures
        line@ == line_of_entry(entry@),
{
    let mut line = chars_of(entry.name.as_str());
    line.push(':');
    line.push(' ');
    push_all(&mut line, &chars_of(entry.url.as_str()));
    assert(line@ =~= line_of_entry(entry@));
    string_from_chars(&line)
}

/// The lines for entries.
pub open spec fn lines_of_entries(entries: Seq<UrlEntryView>) -> Seq<Seq<char>> {
    entries.map_values(|entry: UrlEntryView| line_of_entry(entry))
}

/// `rewritten` holds the lines for the deduplication of what `contents`
/// says.
pub open spec fn is_rewriting(rewritten: Seq<Seq<char>>, contents: Seq<char>) -> bool {
    let entries = url_entries_among(lines_of(contents));
    exists|kept: Seq<UrlEntryView>|
        #[trigger] is_deduplication(kept, entries, entries.len() as int) && rewritten
            == lines_of_entries(kept)
}

/// The lines that the file is rewritten with: one for each url of
/// `contents`, under the name it is first listed with, in the order of
/// the urls.
pub fn deduplicated_lines(contents: &str) -> (rewritten: Vec<String>)
    ensures
        is_rewriting(views(rewritten@), contents@),
{
    let entries = parse_url_entries(contents);
    let kept = sort_and_deduplicate(&entries);
    let mut rewritten: Vec<String> = Vec::new();
    let mut i: usize = 0;
    while i < kept.len()
        invariant
            i <= kept.len(),
            rewritten@.len() == i,
            forall|k: int|
                0 <= k < i ==> rewritten@[k]@ == line_of_entry(url_entry_views(kept@)[k]),
        decreases kept.len() - i,
    {
        rewritten.push(format_entry(&kept[i]));
        i += 1;
    }
    proof {
        let all = url_entries_among(lines_of(contents@));
        assert(url_entry_views(entries@).len() == all.len());
        assert(is_deduplication(url_entry_views(kept@), all, all.len() as int));
        assert(views(rewritten@) =~= lines_of_entries(url_entry_views(kept@)));
    }
    rewritten
}

/// Only one list of lines rewrites given contents.
pub proof fn lemma_rewriting_is_unique(
    first: Seq<Seq<char>>,
    second: Seq<Seq<char>>,
    contents: Seq<char>,
)
    requires
        is_rewriting(first, contents),
        is_rewriting(second, contents),
    ensures
        first == second,
{
    let entries = url_entries_among(lines_of(contents));
    let kept = choose|kept: Seq<UrlEntryView>|
        #[trigger] is_deduplication(kept, entries, entries.len() as int) && first
            == lines_of_entries(kept);
    let other = choose|other: Seq<UrlEntryView>|
        #[trigger] is_deduplication(other, entries, entries.len() as int) && second
            == lines_of_entries(other);
    lemma_deduplication_is_unique(kept, other, entries);
}

} // verus!
