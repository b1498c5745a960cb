//! Downloading the attachments named in a list of hyperlinks.
//!
//! The list has one line per hyperlink, `<thread_id>-<post_id>: <url>`. Only
//! the posts that are named more than once are downloaded, and of each post
//! the second attachment and those after it get a number in their file's
//! name.

use vstd::prelude::*;
use crate::html_parsing::{MediaData, MediaDataView};
use crate::text::{
    chars_of,
    decimal_digits,
    decimal_of,
    last_segment,
    last_segment_of,
    lines,
    lines_of,
    same_chars,
    split_at_first,
    split_once,
    string_from_chars,
    vec_views,
};

verus! {

/// One line of the list.
#[derive(Clone, Debug, PartialEq, Eq)]
pub struct FileListEntry {
    pub thread_id: String,
    pub post_id: String,
    pub media: MediaData,
}

pub struct FileListEntryView {
    pub thread_id: Seq<char>,
    pub post_id: Seq<char>,
    pub media: MediaDataView,
}

impl View for FileListEntry {
    type V = FileListEntryView;

    open spec fn view(&self) -> FileListEntryView {
        FileListEntryView {
            thread_id: self.thread_id@,
            post_id: self.post_id@,
            media: self.media@,
        }
    }
}

/// One attachment to download.
#[derive(Clone, Debug, PartialEq, Eq)]
pub struct PlannedDownload {
    pub thread_id: String,
    pub post_id: String,
    pub media: MediaData,
    /// What tells this file from the others of its post: nothing for the
    /// first, the number of the attachment for the rest.
    pub file_appender: String,
}

pub struct PlannedDownloadView {
    pub thread_id: Seq<char>,
    pub post_id: Seq<char>,
    pub media: MediaDataView,
    pub file_appender: Seq<char>,
}

impl View for PlannedDownload {
    type V = PlannedDownloadView;

    open spec fn view(&self) -> PlannedDownloadView {
        PlannedDownloadView {
            thread_id: self.thread_id@,
            post_id: self.post_id@,
            media: self.media@,
            file_appender: self.file_appender@,
        }
    }
}

/// The views of a sequence of entries.
pub open spec fn entry_views(entries: Seq<FileListEntry>) -> Seq<FileListEntryView> {
    entries.map_values(|entry: FileListEntry| entry@)
}

/// The views of a sequence of planned downloads.
pub open spec fn download_views(downloads: Seq<PlannedDownload>) -> Seq<PlannedDownloadView> {
    downloads.map_values(|download: PlannedDownload| download@)
}

/// What a line says: the part before the first `": "` names the post,
/// thread and post split at its first `-`; the part after is the address,
/// whose part after the last `.` is the extension. A line without `": "`,
/// or without `-` before it, says nothing.
pub open spec fn entry_of_line(line: Seq<char>) -> Option<FileListEntryView> {
    match split_at_first(line, ": "@) {
        None => None,
        Some((name, url)) => match split_at_first(name, "-"@) {
            None => None,
            Some((thread_id, post_id)) => Some(
                FileListEntryView {
                    thread_id,
                    post_id,
                    media: MediaDataView { url, extension: last_segment(url, '.') },
                },
            ),
        },
    }
}

/// What the lines say, in order, leaving out those that say nothing.
pub open spec fn entries_among(lines: Seq<Seq<char>>) -> Seq<FileListEntryView>
    decreases lines.len(),
{
    if lines.len() == 0 {
        Seq::empty()
    } else {
        let before = entries_among(lines.drop_last());
        match entry_of_line(lines.last()) {
            Some(entry) => before.push(entry),
            None => before,
        }
    }
}

/// What a list says.
pub open spec fn entries_of(contents: Seq<char>) -> Seq<FileListEntryView> {
    entries_among(lines_of(contents))
}

/// How many of the first `upto` entries are of the post `post_id`.
pub open spec fn count_of_post(entries: Seq<FileListEntryView>, post_id: Seq<char>, upto: int) -> nat
    decreases upto,
{
    if upto <= 0 {
        0
    } else {
        count_of_post(entries, post_id, upto - 1) + if entries[upto - 1].post_id == post_id {
            1nat
        } else {
            0nat
        }
    }
}

/// What is put into the file's name for an attachment of a post of which
/// `seen_before` attachments came before it.
pub open spec fn appender_of(seen_before: nat) -> Seq<char> {
    if seen_before == 0 {
        Seq::empty()
    } else {
        decimal_digits(seen_before + 1)
    }
}

/// The download planned for the entry at `at`, if its post is named more
/// than once in the list.
pub open spec fn download_of_entry(entries: Seq<FileListEntryView>, at: int) -> Option<
    PlannedDownloadView,
> {
    let entry = entries[at];
    if count_of_post(entries, entry.post_id, entries.len() as int) > 1 {
        Some(
            PlannedDownloadView {
                thread_id: entry.thread_id,
                post_id: entry.post_id,
                media: entry.media,
                file_appender: appender_of(count_of_post(entries, entry.post_id, at)),
            },
        )
    } else {
        None
    }
}

/// The downloads planned for the first `upto` entries, in order.
pub open spec fn downloads_upto(entries: Seq<FileListEntryView>, upto: int) -> Seq<
    PlannedDownloadView,
>
    decreases upto,
{
    if upto <= 0 {
        Seq::empty()
    } else {
        let before = downloads_upto(entries, upto - 1);
        match download_of_entry(entries, upto - 1) {
            Some(download) => before.push(download),
            None => before,
        }
    }
}

/// The downloads planned for a list.
pub open spec fn downloads_of(contents: Seq<char>) -> Seq<PlannedDownloadView> {
    downloads_upto(entries_of(contents), entries_of(contents).len() as int)
}

/// No more entries are of a post than there are entries.
pub proof fn lemma_count_bounded(entries: Seq<FileListEntryView>, post_id: Seq<char>, upto: int)
    requires
        0 <= upto,
    ensures
        count_of_post(entries, post_id, upto) <= upto,
    decreases upto,
{
    if upto > 0 {
        lemma_count_bounded(entries, post_id, upto - 1);
    }
}

/// What one line says.
pub fn parse_line(line: &Vec<char>) -> (entry: Option<FileListEntry>)
    ensures
        match entry {
            Some(entry) => entry_of_line(line@) == Some(entry@),
            None => entry_of_line(line@) is None,
        },
{
    let (name, url) = match split_once(line, &chars_of(": ")) {
        Some(parts) => parts,
        None => {
            return None;
        },
    };
    let (thread_id, post_id) = match split_once(&name, &chars_of("-")) {
        Some(parts) => parts,
        None => {
            return None;
        },
    };
    let extension = last_segment_of(&url, '.');
    Some(
        FileListEntry {
            thread_id: string_from_chars(&thread_id),
            post_id: string_from_chars(&post_id),
            media: MediaData {
                url: string_from_chars(&url),
                extension: string_from_chars(&extension),
            },
        },
    )
}

/// What a list says.
pub fn parse_file_list(contents: &str) -> (entries: Vec<FileListEntry>)
    ensures
        entry_views(entries@) == entries_of(contents@),
{
    let all = lines(&chars_of(contents));
    let mut entries: Vec<FileListEntry> = Vec::new();
    let mut i: usize = 0;
    while i < all.len()
        invariant
            i <= all.len(),
            vec_views(all@) == lines_of(contents@),
            entry_views(entries@) == entries_among(vec_views(all@).take(i as int)),
        decreases all.len() - i,
    {
        assert(vec_views(all@).take(i + 1).drop_last() == vec_views(all@).take(i as int));
        match parse_line(&all[i]) {
            Some(entry) => {
                let ghost before = entry_views(entries@);
                entries.push(entry);
                assert(entry_views(entries@) =~= before.push(entry@));
            },
            None => {},
        }
        i += 1;
    }
    assert(vec_views(all@).take(all@.len() as int) == vec_views(all@));
    entries
}

/// How many of the first `upto` entries are of the post `post_id`.
pub fn count_post(entries: &Vec<FileListEntry>, post_id: &Vec<char>, upto: usize) -> (count: usize)
    requires
        upto <= entries.len(),
    ensures
        count == count_of_post(entry_views(entries@), post_id@, upto as int),
{
    let mut count: usize = 0;
    let mut i: usize = 0;
    while i < upto
        invariant
            i <= upto <= entries.len(),
            count <= i,
            count == count_of_post(entry_views(entries@), post_id@, i as int),
        decreases upto - i,
    {
        if same_chars(&chars_of(entries[i].post_id.as_str()), post_id) {
            count += 1;
        }
        i += 1;
    }
    count
}

/// What is put into the file's name for an attachment of a post of which
/// `seen_before` attachments came before it.
pub fn file_appender(seen_before: usize) -> (appender: String)
    requires
        seen_before < usize::MAX,
    ensures
        appender@ == appender_of(seen_before as nat),
{
    if seen_before == 0 {
        String::new()
    } else {
        string_from_chars(&decimal_of(seen_before + 1))
    }
}

/// The downloads planned for the entries of a list: one for each entry
/// whose post is named more than once, in the order of the list.
pub fn plan_downloads(entries: &Vec<FileListEntry>) -> (downloads: Vec<PlannedDownload>)
    ensures
        download_views(downloads@) == downloads_upto(
            entry_views(entries@),
            entries@.len() as int,
        ),
{
    let mut downloads: Vec<PlannedDownload> = Vec::new();
    let mut i: usize = 0;
    while i < entries.len()
        invariant
            i <= entries.len(),
            download_views(downloads@) == downloads_upto(entry_views(entries@), i as int),
        decreases entries.len() - i,
    {
        let entry = &entries[i];
        let post = chars_of(entry.post_id.as_str());
        assert(entry_views(entries@)[i as int] == entry@);
        if count_post(entries, &post, entries.len()) > 1 {
            let seen_before = count_post(entries, &post, i);
            proof {
                lemma_count_bounded(entry_views(entries@), post@, i as int);
            }
            let download = PlannedDownload {
                thread_id: entry.thread_id.clone(),
                post_id: entry.post_id.clone(),
                media: MediaData {
                    url: entry.media.url.clone(),
                    extension: entry.media.extension.clone(),
                },
                file_appender: file_appender(seen_before),
            };
            let ghost before = download_views(downloads@);
            downloads.push(download);
            assert(download_views(downloads@) =~= before.push(download@));
        }
        i += 1;
    }
    downloads
}

/// The downloads planned for a list of hyperlinks, given its contents.
pub fn download_images_from_file_list(contents: &str) -> (downloads: Vec<PlannedDownload>)
    ensures
        download_views(downloads@) == downloads_of(contents@),
{
    let entries = parse_file_list(contents);
    plan_downloads(&entries)
}

} // verus!
