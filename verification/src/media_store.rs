//! Storing one media attachment: where it goes, and in which order the
//! file system and the network are asked.
//!
//! The library touches neither. A `MediaDownload` says what to do next
//! (`action`) and is told what came of it (`advance`); the caller performs
//! the work in between.

use vstd::prelude::*;
use crate::html_parsing::MediaData;
use crate::text::{chars_of, push_all, string_from_chars};

verus! {

/// Path of the file that holds an attachment:
/// `<data_dir>/<thread_id>/<thread_id>-<post_id>-<appender>.<extension>`.
pub open spec fn media_path(
    data_dir: Seq<char>,
    thread_id: Seq<char>,
    post_id: Seq<char>,
    appender: Seq<char>,
    extension: Seq<char>,
) -> Seq<char> {
    data_dir + seq!['/'] + thread_id + seq!['/'] + thread_id + seq!['-'] + post_id + seq!['-']
        + appender + seq!['.'] + extension
}

/// Why a download did not end with the file in place.
#[derive(Clone, Copy, Debug, PartialEq, Eq, Structural)]
pub enum DownloadFailure {
    /// The directory for the file could not be created.
    Directory,
    /// No response, or no body, could be had from the source.
    Fetch,
    /// The file could not be opened or written.
    Write,
}

/// Where a download stands.
#[derive(Clone, Copy, Debug, PartialEq, Eq, Structural)]
pub enum DownloadStage {
    CheckingExistence,
    EnsuringDirectory,
    Fetching,
    Writing,
    /// Done: the file was there already, nothing was fetched or written.
    AlreadyPresent,
    /// Done: the file was written.
    Stored,
    /// Done: given up.
    Failed(DownloadFailure),
}

/// What the caller reports back.
#[derive(Clone, Debug, PartialEq, Eq)]
pub enum DownloadEvent {
    /// Whether a file exists at the path.
    Exists(bool),
    /// Whether the parent directory is there now.
    DirectoryReady(bool),
    /// The body of the response.
    Fetched(Vec<u8>),
    FetchFailed,
    /// Whether all bytes were written.
    Written(bool),
}

pub enum DownloadEventView {
    Exists(bool),
    DirectoryReady(bool),
    Fetched(Seq<u8>),
    FetchFailed,
    Written(bool),
}

impl View for DownloadEvent {
    type V = DownloadEventView;

    open spec fn view(&self) -> DownloadEventView {
        match *self {
            DownloadEvent::Exists(exists) => DownloadEventView::Exists(exists),
            DownloadEvent::DirectoryReady(ready) => DownloadEventView::DirectoryReady(ready),
            DownloadEvent::Fetched(bytes) => DownloadEventView::Fetched(bytes@),
            DownloadEvent::FetchFailed => DownloadEventView::FetchFailed,
            DownloadEvent::Written(written) => DownloadEventView::Written(written),
        }
    }
}

/// What the caller is asked to do next.
#[derive(Clone, Debug, PartialEq, Eq)]
pub enum DownloadAction {
    /// Find out whether a file exists at `path`.
    CheckExists { path: String },
    /// Create the parent directory of `path`, and what is missing above it.
    EnsureParentDirectory { path: String },
    /// Fetch the body behind `url`.
    Fetch { url: String },
    /// Create or truncate the file at `path` and write the payload to it.
    Write { path: String },
    /// Report success.
    Finish { written: bool },
    /// Report the failure, with the path it concerns.
    Fail { path: String, cause: DownloadFailure },
}

pub enum DownloadActionView {
    CheckExists { path: Seq<char> },
    EnsureParentDirectory { path: Seq<char> },
    Fetch { url: Seq<char> },
    Write { path: Seq<char> },
    Finish { written: bool },
    Fail { path: Seq<char>, cause: DownloadFailure },
}

impl View for DownloadAction {
    type V = DownloadActionView;

    open spec fn view(&self) -> DownloadActionView {
        match *self {
            DownloadAction::CheckExists { path } => DownloadActionView::CheckExists { path: path@ },
            DownloadAction::EnsureParentDirectory { path } => {
                DownloadActionView::EnsureParentDirectory { path: path@ }
            },
            DownloadAction::Fetch { url } => DownloadActionView::Fetch { url: url@ },
            DownloadAction::Write { path } => DownloadActionView::Write { path: path@ },
            DownloadAction::Finish { written } => DownloadActionView::Finish { written },
            DownloadAction::Fail { path, cause } => DownloadActionView::Fail { path: path@, cause },
        }
    }
}

/// The download of one attachment to one path.
pub struct MediaDownload {
    path: String,
    url: String,
    stage: DownloadStage,
    payload: Vec<u8>,
}

pub struct MediaDownloadView {
    pub path: Seq<char>,
    pub url: Seq<char>,
    pub stage: DownloadStage,
    /// The fetched bytes; empty until there are any.
    pub payload: Seq<u8>,
}

impl View for MediaDownload {
    type V = MediaDownloadView;

    closed spec fn view(&self) -> MediaDownloadView {
        MediaDownloadView {
            path: self.path@,
            url: self.url@,
            stage: self.stage,
            payload: self.payload@,
        }
    }
}

impl MediaDownloadView {
    /// A download that has asked nothing yet.
    pub open spec fn fresh(path: Seq<char>, url: Seq<char>) -> MediaDownloadView {
        MediaDownloadView {
            path,
            url,
            stage: DownloadStage::CheckingExistence,
            payload: Seq::empty(),
        }
    }

    /// The download has ended, one way or the other.
    pub open spec fn is_done(self) -> bool {
        self.stage is AlreadyPresent || self.stage is Stored || self.stage is Failed
    }

    /// What the caller is asked to do in this state.
    pub open spec fn pending(self) -> DownloadActionView {
        match self.stage {
            DownloadStage::CheckingExistence => DownloadActionView::CheckExists { path: self.path },
            DownloadStage::EnsuringDirectory => DownloadActionView::EnsureParentDirectory {
                path: self.path,
            },
            DownloadStage::Fetching => DownloadActionView::Fetch { url: self.url },
            DownloadStage::Writing => DownloadActionView::Write { path: self.path },
            DownloadStage::AlreadyPresent => DownloadActionView::Finish { written: false },
            DownloadStage::Stored => DownloadActionView::Finish { written: true },
            DownloadStage::Failed(cause) => DownloadActionView::Fail { path: self.path, cause },
        }
    }

    /// The state after `event`. An event that does not answer the pending
    /// action changes nothing.
    pub open spec fn after(self, event: DownloadEventView) -> MediaDownloadView {
        match (self.stage, event) {
            (DownloadStage::CheckingExistence, DownloadEventView::Exists(true)) => {
                MediaDownloadView { stage: DownloadStage::AlreadyPresent, ..self }
            },
            (DownloadStage::CheckingExistence, DownloadEventView::Exists(false)) => {
                MediaDownloadView { stage: DownloadStage::EnsuringDirectory, ..self }
            },
            (DownloadStage::EnsuringDirectory, DownloadEventView::DirectoryReady(true)) => {
                MediaDownloadView { stage: DownloadStage::Fetching, ..self }
            },
            (DownloadStage::EnsuringDirectory, DownloadEventView::DirectoryReady(false)) => {
                MediaDownloadView {
                    stage: DownloadStage::Failed(DownloadFailure::Directory),
                    ..self
                }
            },
            (DownloadStage::Fetching, DownloadEventView::Fetched(bytes)) => {
                MediaDownloadView { stage: DownloadStage::Writing, payload: bytes, ..self }
            },
            (DownloadStage::Fetching, DownloadEventView::FetchFailed) => {
                MediaDownloadView { stage: DownloadStage::Failed(DownloadFailure::Fetch), ..self }
            },
            (DownloadStage::Writing, DownloadEventView::Written(true)) => {
                MediaDownloadView { stage: DownloadStage::Stored, ..self }
            },
            (DownloadStage::Writing, DownloadEventView::Written(false)) => {
                MediaDownloadView { stage: DownloadStage::Failed(DownloadFailure::Write), ..self }
            },
            _ => self,
        }
    }
}

/// The files of an idealised store, and how the outside answers a download.
pub struct StoreWorld {
    /// Contents of each file that exists, by path.
    pub files: Map<Seq<char>, Seq<u8>>,
    /// Whether directories can be created.
    pub directories_ok: bool,
    /// What a fetch returns, if it returns.
    pub body: Option<Seq<u8>>,
    /// Whether files can be written.
    pub writes_ok: bool,
    /// How many writes were made.
    pub writes: nat,
}

impl StoreWorld {
    /// The answer of this world to a request.
    pub open spec fn answer(self, state: MediaDownloadView) -> DownloadEventView {
        match state.pending() {
            DownloadActionView::CheckExists { path } => DownloadEventView::Exists(
                self.files.dom().contains(path),
            ),
            DownloadActionView::EnsureParentDirectory { path } => DownloadEventView::DirectoryReady(
                self.directories_ok,
            ),
            DownloadActionView::Fetch { url } => match self.body {
                Some(bytes) => DownloadEventView::Fetched(bytes),
                None => DownloadEventView::FetchFailed,
            },
            _ => DownloadEventView::Written(self.writes_ok),
        }
    }

    /// This world after it has carried out a request.
    pub open spec fn carry_out(self, state: MediaDownloadView) -> StoreWorld {
        match state.pending() {
            DownloadActionView::Write { path } => if self.writes_ok {
                StoreWorld {
                    files: self.files.insert(path, state.payload),
                    writes: self.writes + 1,
                    ..self
                }
            } else {
                self
            },
            _ => self,
        }
    }
}

/// A download driven to its end, or for `steps` steps, in `world`.
pub open spec fn run_download(state: MediaDownloadView, world: StoreWorld, steps: nat) -> (
    MediaDownloadView,
    StoreWorld,
)
    decreases steps,
{
    if steps == 0 || state.is_done() {
        (state, world)
    } else {
        run_download(state.after(world.answer(state)), world.carry_out(state), (steps - 1) as nat)
    }
}

/// A download ends within four steps.
pub proof fn lemma_download_ends(state: MediaDownloadView, world: StoreWorld)
    requires
        state.stage is CheckingExistence,
    ensures
        run_download(state, world, 4).0.is_done(),
{
    reveal_with_fuel(run_download, 5);
}

/// A download that finds its file in place ends at once, successfully,
/// and asks for no fetch and no write.
pub proof fn lemma_present_file_is_kept(state: MediaDownloadView, world: StoreWorld)
    requires
        state.stage is CheckingExistence,
        world.files.dom().contains(state.path),
    ensures
        run_download(state, world, 4).0.stage is AlreadyPresent,
        run_download(state, world, 4).1 == world,
{
    reveal_with_fuel(run_download, 5);
}

/// Storing twice is storing once: where the outside works, the first
/// download of a missing file writes it once with the fetched bytes, and a
/// second download of the same path succeeds without writing and leaves
/// every file as it was.
pub proof fn lemma_store_is_idempotent(path: Seq<char>, url: Seq<char>, world: StoreWorld)
    requires
        world.directories_ok,
        world.writes_ok,
        world.body is Some,
        !world.files.dom().contains(path),
    ensures
        ({
            let fresh = MediaDownloadView::fresh(path, url);
            let first = run_download(fresh, world, 4);
            let second = run_download(fresh, first.1, 4);
            &&& first.0.stage is Stored
            &&& first.1.writes == world.writes + 1
            &&& first.1.files == world.files.insert(path, world.body->0)
            &&& second.0.stage is AlreadyPresent
            &&& second.1.writes == first.1.writes
            &&& second.1.files == first.1.files
        }),
{
    reveal_with_fuel(run_download, 5);
    let fresh = MediaDownloadView::fresh(path, url);
    let first = run_download(fresh, world, 4);
    assert(first.1.files.dom().contains(path));
    lemma_present_file_is_kept(fresh, first.1);
}

/// The path of the file that holds an attachment.
pub fn media_file_path(
    data_dir: &str,
    thread_id: &str,
    post_id: &str,
    file_appender: &str,
    extension: &str,
) -> (path: String)
    ensures
        path@ == media_path(data_dir@, thread_id@, post_id@, file_appender@, extension@),
{
    let thread = chars_of(thread_id);
    let mut path = chars_of(data_dir);
    path.push('/');
    push_all(&mut path, &thread);
    path.push('/');
    push_all(&mut path, &thread);
    path.push('-');
    push_all(&mut path, &chars_of(post_id));
    path.push('-');
    push_all(&mut path, &chars_of(file_appender));
    path.push('.');
    push_all(&mut path, &chars_of(extension));
    assert(path@ =~= media_path(data_dir@, thread_id@, post_id@, file_appender@, extension@));
    string_from_chars(&path)
}

impl MediaData {
    /// Begins the download of this attachment for the given post. The
    /// file goes under `data_dir`, in the directory of the thread.
    pub fn download(self, data_dir: &str, thread_id: &str, post_id: &str, file_appender: &str) -> (download:
        MediaDownload)
        ensures
            download@ == MediaDownloadView::fresh(
                media_path(data_dir@, thread_id@, post_id@, file_appender@, self.extension@),
                self.url@,
            ),
    {
        let path = media_file_path(
            data_dir,
            thread_id,
            post_id,
            file_appender,
            self.extension.as_str(),
        );
        MediaDownload {
            path,
            url: self.url,
            stage: DownloadStage::CheckingExistence,
            payload: Vec::new(),
        }
    }
}

impl MediaDownload {
    /// What to do next.
    pub fn action(&self) -> (action: DownloadAction)
        ensures
            action@ == self@.pending(),
    {
        match self.stage {
            DownloadStage::CheckingExistence => DownloadAction::CheckExists {
                path: self.path.clone(),
            },
            DownloadStage::EnsuringDirectory => DownloadAction::EnsureParentDirectory {
                path: self.path.clone(),
            },
            DownloadStage::Fetching => DownloadAction::Fetch { url: self.url.clone() },
            DownloadStage::Writing => DownloadAction::Write { path: self.path.clone() },
            DownloadStage::AlreadyPresent => DownloadAction::Finish { written: false },
            DownloadStage::Stored => DownloadAction::Finish { written: true },
            DownloadStage::Failed(cause) => DownloadAction::Fail { path: self.path.clone(), cause },
        }
    }

    /// Takes note of what came of the last action.
    pub fn advance(&mut self, event: DownloadEvent)
        ensures
            final(self)@ == old(self)@.after(event@),
    {
        match (self.stage, event) {
            (DownloadStage::CheckingExistence, DownloadEvent::Exists(exists)) => {
                if exists {
                    self.stage = DownloadStage::AlreadyPresent;
                } else {
                    self.stage = DownloadStage::EnsuringDirectory;
                }
            },
            (DownloadStage::EnsuringDirectory, DownloadEvent::DirectoryReady(ready)) => {
                if ready {
                    self.stage = DownloadStage::Fetching;
                } else {
                    self.stage = DownloadStage::Failed(DownloadFailure::Directory);
                }
            },
            (DownloadStage::Fetching, DownloadEvent::Fetched(bytes)) => {
                self.payload = bytes;
                self.stage = DownloadStage::Writing;
            },
            (DownloadStage::Fetching, DownloadEvent::FetchFailed) => {
                self.stage = DownloadStage::Failed(DownloadFailure::Fetch);
            },
            (DownloadStage::Writing, DownloadEvent::Written(written)) => {
                if written {
                    self.stage = DownloadStage::Stored;
                } else {
                    self.stage = DownloadStage::Failed(DownloadFailure::Write);
                }
            },
            _ => {},
        }
    }

    /// The fetched bytes, to be written when `action` says so.
    pub fn payload(&self) -> (bytes: &Vec<u8>)
        ensures
            bytes@ == self@.payload,
    {
        &self.payload
    }

    /// Where the download stands.
    pub fn stage(&self) -> (stage: DownloadStage)
        ensures
            stage == self@.stage,
    {
        self.stage
    }
}

} // verus!
