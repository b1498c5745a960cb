//! The crawl itself: which page, thread and post comes next, and what is to
//! be fetched, stored or logged for it.
//!
//! The library reads documents and decides; it fetches and writes nothing.
//! A `Crawl` says what to do next (`action`) and is told what came of it
//! (`advance`); the caller does the work in between.

use vstd::prelude::*;
use crate::config::{
    BASE_RATE_LIMIT_NANOS,
    DATA_DESTINATION_DIR,
    DEVIATION,
    FIRST_PAGE,
    LAST_PAGE,
    MAX_REQUEST_RATE_LIMIT,
    MAX_TOKENS,
    REQUEST_RETRY_COUNT,
    RETRY_REQUEST_WAIT_NANOS,
    THREAD_PAGE_URL,
    THREAD_SEARCH_URL,
};
use crate::dom::{element_views, select_elements, selected_elements, Element, ElementView};
use crate::html_parsing::{
    banned_substrings,
    banned_url_list,
    extract_media_url_from_post,
    hyperlinks_excluding,
    hyperlinks_of_post,
    media_of_post,
    MediaData,
    MediaDataView,
};
use crate::text::{chars_of, decimal_digits, decimal_of, push_all, string_from_chars, views};

verus! {

/// The settings of a crawl.
#[derive(Clone, Debug, PartialEq, Eq)]
pub struct CrawlConfig {
    /// Attempts made for one request.
    pub request_retry_count: usize,
    /// Pause after a failed attempt, in nanoseconds.
    pub retry_wait_nanos: u64,
    /// Tokens added to the rate limiter's bucket per refill.
    pub rate_limit_amount: u64,
    /// Time between refills, in nanoseconds.
    pub rate_limit_interval_nanos: u64,
    /// Most tokens the bucket holds.
    pub rate_limit_max_tokens: u64,
    /// Bound, exclusive, of the random delay per request, in nanoseconds.
    pub deviation_nanos: u64,
    /// Substrings that disqualify a hyperlink.
    pub banned_urls: Vec<String>,
    /// First page of the listing to crawl.
    pub first_page: usize,
    /// Last page of the listing to crawl.
    pub last_page: usize,
    /// Address of the listing, without the page.
    pub thread_search_url: String,
    /// Address of a thread, without its identifier.
    pub thread_page_url: String,
    /// Directory under which everything is stored.
    pub data_destination_dir: String,
}

pub struct CrawlConfigView {
    pub request_retry_count: usize,
    pub retry_wait_nanos: u64,
    pub rate_limit_amount: u64,
    pub rate_limit_interval_nanos: u64,
    pub rate_limit_max_tokens: u64,
    pub deviation_nanos: u64,
    pub banned_urls: Seq<Seq<char>>,
    pub first_page: usize,
    pub last_page: usize,
    pub thread_search_url: Seq<char>,
    pub thread_page_url: Seq<char>,
    pub data_destination_dir: Seq<char>,
}

impl View for CrawlConfig {
    type V = CrawlConfigView;

    open spec fn view(&self) -> CrawlConfigView {
        CrawlConfigView {
            request_retry_count: self.request_retry_count,
            retry_wait_nanos: self.retry_wait_nanos,
            rate_limit_amount: self.rate_limit_amount,
            rate_limit_interval_nanos: self.rate_limit_interval_nanos,
            rate_limit_max_tokens: self.rate_limit_max_tokens,
            deviation_nanos: self.deviation_nanos,
            banned_urls: views(self.banned_urls@),
            first_page: self.first_page,
            last_page: self.last_page,
            thread_search_url: self.thread_search_url@,
            thread_page_url: self.thread_page_url@,
            data_destination_dir: self.data_destination_dir@,
        }
    }
}

impl CrawlConfigView {
    /// The settings used when nothing else is asked.
    pub open spec fn standard() -> CrawlConfigView {
        CrawlConfigView {
            request_retry_count: REQUEST_RETRY_COUNT,
            retry_wait_nanos: RETRY_REQUEST_WAIT_NANOS,
            rate_limit_amount: MAX_REQUEST_RATE_LIMIT,
            rate_limit_interval_nanos: BASE_RATE_LIMIT_NANOS,
            rate_limit_max_tokens: MAX_TOKENS,
            deviation_nanos: DEVIATION,
            banned_urls: banned_substrings(),
            first_page: FIRST_PAGE,
            last_page: LAST_PAGE,
            thread_search_url: THREAD_SEARCH_URL@,
            thread_page_url: THREAD_PAGE_URL@,
            data_destination_dir: DATA_DESTINATION_DIR@,
        }
    }
}

impl CrawlConfig {
    /// The settings used when nothing else is asked.
    pub fn standard() -> (config: CrawlConfig)
        ensures
            config@ == CrawlConfigView::standard(),
    {
        CrawlConfig {
            request_retry_count: REQUEST_RETRY_COUNT,
            retry_wait_nanos: RETRY_REQUEST_WAIT_NANOS,
            rate_limit_amount: MAX_REQUEST_RATE_LIMIT,
            rate_limit_interval_nanos: BASE_RATE_LIMIT_NANOS,
            rate_limit_max_tokens: MAX_TOKENS,
            deviation_nanos: DEVIATION,
            banned_urls: banned_url_list(),
            first_page: FIRST_PAGE,
            last_page: LAST_PAGE,
            thread_search_url: THREAD_SEARCH_URL.to_owned(),
            thread_page_url: THREAD_PAGE_URL.to_owned(),
            data_destination_dir: DATA_DESTINATION_DIR.to_owned(),
        }
    }
}

/// Address of page `page` of the listing: `<search_url>/page/<page>`.
pub open spec fn listing_url_of(search_url: Seq<char>, page: nat) -> Seq<char> {
    search_url + "/page/"@ + decimal_digits(page)
}

/// Address of a thread: `<thread_url><thread_id>`.
pub open spec fn thread_url_of(thread_url: Seq<char>, thread_id: Seq<char>) -> Seq<char> {
    thread_url + thread_id
}

/// Path of the hyperlink log: `<data_dir>/urls.txt`.
pub open spec fn hyperlink_log_of(data_dir: Seq<char>) -> Seq<char> {
    data_dir + "/urls.txt"@
}

/// A line of the hyperlink log: `<thread_id>-<post_id>: <url>`.
pub open spec fn hyperlink_line_of(thread_id: Seq<char>, post_id: Seq<char>, url: Seq<char>) -> Seq<
    char,
> {
    thread_id + seq!['-'] + post_id + seq![':', ' '] + url
}

/// The lines that a post adds to the hyperlink log, one per hyperlink.
pub open spec fn hyperlink_lines_of(
    thread_id: Seq<char>,
    post_id: Seq<char>,
    hyperlinks: Seq<Seq<char>>,
) -> Seq<Seq<char>> {
    Seq::new(hyperlinks.len(), |i: int| hyperlink_line_of(thread_id, post_id, hyperlinks[i]))
}

/// The `article` elements of a document, in document order.
pub open spec fn articles_of(document: Seq<char>) -> Seq<ElementView> {
    selected_elements(document, "article"@)
}

/// The identifiers of those of `elements` that have one, in order and
/// with repeats.
pub open spec fn ids_among(elements: Seq<ElementView>) -> Seq<Seq<char>>
    decreases elements.len(),
{
    if elements.len() == 0 {
        Seq::empty()
    } else {
        let before = ids_among(elements.drop_last());
        match elements.last().id {
            Some(id) => before.push(id),
            None => before,
        }
    }
}

/// The thread identifiers that a listing page names.
pub open spec fn thread_ids_of(document: Seq<char>) -> Seq<Seq<char>> {
    ids_among(articles_of(document))
}

/// What is to be done for one post.
#[derive(Clone, Debug, PartialEq, Eq)]
pub struct PostPlan {
    pub post_id: String,
    /// The attachment to store, if the post has one.
    pub media: Option<MediaData>,
    /// The hyperlinks to log; none where the post has no text container.
    pub hyperlinks: Vec<String>,
}

pub struct PostPlanView {
    pub post_id: Seq<char>,
    pub media: Option<MediaDataView>,
    pub hyperlinks: Seq<Seq<char>>,
}

impl View for PostPlan {
    type V = PostPlanView;

    open spec fn view(&self) -> PostPlanView {
        PostPlanView {
            post_id: self.post_id@,
            media: match self.media {
                Some(media) => Some(media@),
                None => None,
            },
            hyperlinks: views(self.hyperlinks@),
        }
    }
}

impl PostPlanView {
    /// There is something to store or to log for the post.
    pub open spec fn has_work(self) -> bool {
        self.media is Some || self.hyperlinks.len() > 0
    }
}

/// The views of a sequence of post plans.
pub open spec fn plan_views(plans: Seq<PostPlan>) -> Seq<PostPlanView> {
    plans.map_values(|plan: PostPlan| plan@)
}

/// The post is the opening post of its thread, or only holds backlinks.
pub open spec fn is_skipped_post(post: ElementView) -> bool {
    post.has_class("post_is_op"@) || post.has_class("backlink_container"@)
}

/// What is to be done for a post: nothing for a skipped post or one
/// without an identifier.
pub open spec fn post_plan_of(post: ElementView, banned: Seq<Seq<char>>) -> Option<PostPlanView> {
    if is_skipped_post(post) {
        None
    } else {
        match post.id {
            None => None,
            Some(post_id) => Some(
                PostPlanView {
                    post_id,
                    media: media_of_post(post),
                    hyperlinks: match hyperlinks_of_post(post, banned) {
                        Some(hyperlinks) => hyperlinks,
                        None => Seq::empty(),
                    },
                },
            ),
        }
    }
}

/// The post is none that is skipped, and yet has no identifier: nothing
/// can be stored or logged for it, which is worth a warning.
pub open spec fn is_unidentified_post(post: ElementView) -> bool {
    !is_skipped_post(post) && post.id is None
}

/// How many of `posts` are without an identifier.
pub open spec fn unidentified_among(posts: Seq<ElementView>) -> nat
    decreases posts.len(),
{
    if posts.len() == 0 {
        0
    } else {
        unidentified_among(posts.drop_last()) + if is_unidentified_post(posts.last()) {
            1nat
        } else {
            0nat
        }
    }
}

/// How many posts of a thread page are without an identifier.
pub open spec fn unidentified_in_thread(document: Seq<char>) -> nat {
    unidentified_among(articles_of(document))
}

/// The plans of those of `posts` that have one, in order.
pub open spec fn post_plans_among(posts: Seq<ElementView>, banned: Seq<Seq<char>>) -> Seq<
    PostPlanView,
>
    decreases posts.len(),
{
    if posts.len() == 0 {
        Seq::empty()
    } else {
        let before = post_plans_among(posts.drop_last(), banned);
        match post_plan_of(posts.last(), banned) {
            Some(plan) => before.push(plan),
            None => before,
        }
    }
}

/// What is to be done for the posts of a thread page.
pub open spec fn thread_plan_of(document: Seq<char>, banned: Seq<Seq<char>>) -> Seq<PostPlanView> {
    post_plans_among(articles_of(document), banned)
}

/// The first position from `from` on whose post has work, or the number
/// of posts when none has.
pub open spec fn next_busy_post(posts: Seq<PostPlanView>, from: int) -> int
    decreases posts.len() - from,
{
    if from >= posts.len() {
        posts.len() as int
    } else if posts[from].has_work() {
        from
    } else {
        next_busy_post(posts, from + 1)
    }
}

/// Where a crawl stands.
#[derive(Clone, Copy, Debug, PartialEq, Eq, Structural)]
pub enum CrawlPhase {
    /// The listing page is to be fetched.
    FetchingListing,
    /// The page of the current thread is to be fetched.
    FetchingThread,
    /// The attachment of the current post is to be stored.
    StoringMedia,
    /// The hyperlinks of the current post are to be logged.
    AppendingLinks,
    /// Every page has been visited.
    Finished,
}

/// What the caller reports back.
#[derive(Clone, Debug, PartialEq, Eq)]
pub enum CrawlEvent {
    /// The document that was asked for.
    Fetched(String),
    /// No document could be had.
    FetchFailed,
    /// Whether the attachment is in place.
    MediaStored(bool),
    /// Whether the log could be opened; a line that could not be written
    /// does not count against it.
    LinksAppended(bool),
}

pub enum CrawlEventView {
    Fetched(Seq<char>),
    FetchFailed,
    MediaStored(bool),
    LinksAppended(bool),
}

impl View for CrawlEvent {
    type V = CrawlEventView;

    open spec fn view(&self) -> CrawlEventView {
        match *self {
            CrawlEvent::Fetched(document) => CrawlEventView::Fetched(document@),
            CrawlEvent::FetchFailed => CrawlEventView::FetchFailed,
            CrawlEvent::MediaStored(stored) => CrawlEventView::MediaStored(stored),
            CrawlEvent::LinksAppended(appended) => CrawlEventView::LinksAppended(appended),
        }
    }
}

/// What the caller is asked to do next.
#[derive(Clone, Debug, PartialEq, Eq)]
pub enum CrawlAction {
    /// Fetch page `page` of the listing from `url`.
    FetchListing { page: usize, url: String },
    /// Fetch the page of thread `thread_id` from `url`.
    FetchThread { thread_id: String, url: String },
    /// Store the attachment of a post.
    StoreMedia { thread_id: String, post_id: String, media: MediaData },
    /// Append `lines` to the log at `path`, making its directory first.
    AppendLinks { thread_id: String, post_id: String, path: String, lines: Vec<String> },
    /// Report that the crawl is complete.
    Done,
}

pub enum CrawlActionView {
    FetchListing { page: nat, url: Seq<char> },
    FetchThread { thread_id: Seq<char>, url: Seq<char> },
    StoreMedia { thread_id: Seq<char>, post_id: Seq<char>, media: MediaDataView },
    AppendLinks { thread_id: Seq<char>, post_id: Seq<char>, path: Seq<char>, lines: Seq<Seq<char>> },
    Done,
}

impl View for CrawlAction {
    type V = CrawlActionView;

    open spec fn view(&self) -> CrawlActionView {
        match *self {
            CrawlAction::FetchListing { page, url } => CrawlActionView::FetchListing {
                page: page as nat,
                url: url@,
            },
            CrawlAction::FetchThread { thread_id, url } => CrawlActionView::FetchThread {
                thread_id: thread_id@,
                url: url@,
            },
            CrawlAction::StoreMedia { thread_id, post_id, media } => CrawlActionView::StoreMedia {
                thread_id: thread_id@,
                post_id: post_id@,
                media: media@,
            },
            CrawlAction::AppendLinks { thread_id, post_id, path, lines } => {
                CrawlActionView::AppendLinks {
                    thread_id: thread_id@,
                    post_id: post_id@,
                    path: path@,
                    lines: views(lines@),
                }
            },
            CrawlAction::Done => CrawlActionView::Done,
        }
    }
}

/// A crawl over a range of listing pages.
pub struct Crawl {
    config: CrawlConfig,
    page: usize,
    threads: Vec<String>,
    thread_index: usize,
    posts: Vec<PostPlan>,
    post_index: usize,
    unidentified: usize,
    phase: CrawlPhase,
}

pub struct CrawlView {
    pub config: CrawlConfigView,
    /// The listing page that is being worked on.
    pub page: nat,
    /// The threads of that page.
    pub threads: Seq<Seq<char>>,
    /// Which of them is being worked on.
    pub thread_index: nat,
    /// The posts of that thread for which something is to be done.
    pub posts: Seq<PostPlanView>,
    /// Which of them is being worked on.
    pub post_index: nat,
    /// How many posts without an identifier the thread page that was
    /// read last holds.
    pub unidentified: nat,
    pub phase: CrawlPhase,
}

impl View for Crawl {
    type V = CrawlView;

    closed spec fn view(&self) -> CrawlView {
        CrawlView {
            config: self.config@,
            page: self.page as nat,
            threads: views(self.threads@),
            thread_index: self.thread_index as nat,
            posts: plan_views(self.posts@),
            post_index: self.post_index as nat,
            unidentified: self.unidentified as nat,
            phase: self.phase,
        }
    }
}

impl CrawlView {
    /// A crawl that has asked nothing yet: at the first page, or finished
    /// where the range of pages is empty.
    pub open spec fn begin(config: CrawlConfigView) -> CrawlView {
        CrawlView {
            config,
            page: config.first_page as nat,
            threads: Seq::empty(),
            thread_index: 0,
            posts: Seq::empty(),
            post_index: 0,
            unidentified: 0,
            phase: if config.first_page <= config.last_page {
                CrawlPhase::FetchingListing
            } else {
                CrawlPhase::Finished
            },
        }
    }

    /// The positions point at a thread and a post wherever the phase
    /// speaks of one.
    pub open spec fn wf(self) -> bool {
        &&& (self.phase is FetchingThread || self.phase is StoringMedia
            || self.phase is AppendingLinks) ==> self.thread_index < self.threads.len()
        &&& (self.phase is StoringMedia || self.phase is AppendingLinks) ==> self.post_index
            < self.posts.len()
        &&& self.phase is StoringMedia ==> self.posts[self.post_index as int].media is Some
    }

    /// The crawl moved on to the page after the current one, or finished
    /// where that was the last.
    pub open spec fn at_next_page(self) -> CrawlView {
        CrawlView {
            page: if self.page < self.config.last_page {
                self.page + 1
            } else {
                self.page
            },
            threads: Seq::empty(),
            thread_index: 0,
            posts: Seq::empty(),
            post_index: 0,
            phase: if self.page < self.config.last_page {
                CrawlPhase::FetchingListing
            } else {
                CrawlPhase::Finished
            },
            ..self
        }
    }

    /// The crawl moved on to the thread after the current one, or to the
    /// next page where that was the last.
    pub open spec fn at_next_thread(self) -> CrawlView {
        if self.thread_index + 1 < self.threads.len() {
            CrawlView {
                thread_index: self.thread_index + 1,
                posts: Seq::empty(),
                post_index: 0,
                phase: CrawlPhase::FetchingThread,
                ..self
            }
        } else {
            self.at_next_page()
        }
    }

    /// The crawl moved on to the first post from `from` on that has work,
    /// or to the next thread where none has.
    pub open spec fn at_post(self, from: int) -> CrawlView {
        let at = next_busy_post(self.posts, from);
        if at < self.posts.len() {
            CrawlView {
                post_index: at as nat,
                phase: if self.posts[at].media is Some {
                    CrawlPhase::StoringMedia
                } else {
                    CrawlPhase::AppendingLinks
                },
                ..self
            }
        } else {
            self.at_next_thread()
        }
    }

    /// What the caller is asked to do in this state.
    pub open spec fn pending(self) -> CrawlActionView {
        match self.phase {
            CrawlPhase::FetchingListing => CrawlActionView::FetchListing {
                page: self.page,
                url: listing_url_of(self.config.thread_search_url, self.page),
            },
            CrawlPhase::FetchingThread => CrawlActionView::FetchThread {
                thread_id: self.threads[self.thread_index as int],
                url: thread_url_of(
                    self.config.thread_page_url,
                    self.threads[self.thread_index as int],
                ),
            },
            CrawlPhase::StoringMedia => CrawlActionView::StoreMedia {
                thread_id: self.threads[self.thread_index as int],
                post_id: self.posts[self.post_index as int].post_id,
                media: self.posts[self.post_index as int].media->0,
            },
            CrawlPhase::AppendingLinks => CrawlActionView::AppendLinks {
                thread_id: self.threads[self.thread_index as int],
                post_id: self.posts[self.post_index as int].post_id,
                path: hyperlink_log_of(self.config.data_destination_dir),
                lines: hyperlink_lines_of(
                    self.threads[self.thread_index as int],
                    self.posts[self.post_index as int].post_id,
                    self.posts[self.post_index as int].hyperlinks,
                ),
            },
            CrawlPhase::Finished => CrawlActionView::Done,
        }
    }

    /// The state after `event`. A listing that cannot be had, or names
    /// no thread, is passed over; so is a thread whose page cannot be
    /// had. Of a thread page that is read, the posts without an
    /// identifier are counted. An attachment that cannot be stored, or a
    /// log that cannot be opened, ends the work on the thread. An event
    /// that does not answer the pending action changes nothing.
    pub open spec fn after(self, event: CrawlEventView) -> CrawlView {
        match (self.phase, event) {
            (CrawlPhase::FetchingListing, CrawlEventView::Fetched(document)) => {
                let threads = thread_ids_of(document);
                if threads.len() == 0 {
                    self.at_next_page()
                } else {
                    CrawlView {
                        threads,
                        thread_index: 0,
                        posts: Seq::empty(),
                        post_index: 0,
                        phase: CrawlPhase::FetchingThread,
                        ..self
                    }
                }
            },
            (CrawlPhase::FetchingListing, CrawlEventView::FetchFailed) => self.at_next_page(),
            (CrawlPhase::FetchingThread, CrawlEventView::Fetched(document)) => {
                (CrawlView {
                    posts: thread_plan_of(document, self.config.banned_urls),
                    post_index: 0,
                    unidentified: unidentified_in_thread(document),
                    ..self
                }).at_post(0)
            },
            (CrawlPhase::FetchingThread, CrawlEventView::FetchFailed) => self.at_next_thread(),
            (CrawlPhase::StoringMedia, CrawlEventView::MediaStored(true)) => {
                if self.posts[self.post_index as int].hyperlinks.len() > 0 {
                    CrawlView { phase: CrawlPhase::AppendingLinks, ..self }
                } else {
                    self.at_post(self.post_index as int + 1)
                }
            },
            (CrawlPhase::StoringMedia, CrawlEventView::MediaStored(false)) => self.at_next_thread(),
            (CrawlPhase::AppendingLinks, CrawlEventView::LinksAppended(true)) => self.at_post(
                self.post_index as int + 1,
            ),
            (CrawlPhase::AppendingLinks, CrawlEventView::LinksAppended(false)) => {
                self.at_next_thread()
            },
            _ => self,
        }
    }

    /// How far the crawl has come: first by page, then by thread, then by
    /// post, then by what is done for the post.
    pub open spec fn progress(self) -> (int, int, int, int) {
        (
            if self.phase is Finished {
                self.config.last_page + 1
            } else {
                self.page as int
            },
            if self.phase is FetchingListing || self.phase is Finished {
                -1
            } else {
                self.thread_index as int
            },
            if self.phase is StoringMedia || self.phase is AppendingLinks {
                self.post_index as int
            } else {
                -1
            },
            if self.phase is AppendingLinks {
                1
            } else {
                0
            },
        )
    }
}

/// `a` comes before `b` in the order of the crawl.
pub open spec fn progress_before(a: (int, int, int, int), b: (int, int, int, int)) -> bool {
    ||| a.0 < b.0
    ||| a.0 == b.0 && a.1 < b.1
    ||| a.0 == b.0 && a.1 == b.1 && a.2 < b.2
    ||| a.0 == b.0 && a.1 == b.1 && a.2 == b.2 && a.3 < b.3
}

/// The first busy post from `from` on is at `from` or later, within the
/// posts, has work where it is a post, and no post between has.
pub proof fn lemma_next_busy_post(posts: Seq<PostPlanView>, from: int)
    requires
        0 <= from <= posts.len(),
    ensures
        from <= next_busy_post(posts, from) <= posts.len(),
        next_busy_post(posts, from) < posts.len() ==> posts[next_busy_post(
            posts,
            from,
        )].has_work(),
        forall|k: int| from <= k < next_busy_post(posts, from) ==> !(#[trigger] posts[k]).has_work(),
    decreases posts.len() - from,
{
    if from < posts.len() && !posts[from].has_work() {
        lemma_next_busy_post(posts, from + 1);
    }
}

/// A crawl is well-formed when it begins.
pub proof fn lemma_crawl_begins_well(config: CrawlConfigView)
    ensures
        CrawlView::begin(config).wf(),
{
}

/// Every event keeps a well-formed crawl well-formed and its settings
/// unchanged. An event that changes anything moves the crawl forward:
/// pages are visited in ascending order, the threads of a page in the
/// order of the listing, the posts of a thread in the order of its page,
/// and nothing is visited twice. A finished crawl stays finished.
pub proof fn lemma_crawl_step(state: CrawlView, event: CrawlEventView)
    requires
        state.wf(),
        state.phase !is Finished ==> state.page <= state.config.last_page,
    ensures
        state.after(event).wf(),
        state.after(event).config == state.config,
        state.after(event).phase !is Finished ==> state.after(event).page
            <= state.config.last_page,
        state.after(event) != state ==> progress_before(
            state.progress(),
            state.after(event).progress(),
        ),
        state.phase is Finished ==> state.after(event) == state,
{
    match (state.phase, event) {
        (CrawlPhase::FetchingThread, CrawlEventView::Fetched(document)) => {
            let loaded = CrawlView {
                posts: thread_plan_of(document, state.config.banned_urls),
                post_index: 0,
                unidentified: unidentified_in_thread(document),
                ..state
            };
            lemma_next_busy_post(loaded.posts, 0);
        },
        (CrawlPhase::StoringMedia, CrawlEventView::MediaStored(true)) => {
            lemma_next_busy_post(state.posts, state.post_index as int + 1);
        },
        (CrawlPhase::AppendingLinks, CrawlEventView::LinksAppended(true)) => {
            lemma_next_busy_post(state.posts, state.post_index as int + 1);
        },
        _ => {},
    }
}

/// The identifiers of those of `articles` that have one.
pub fn article_ids(articles: &Vec<Element>) -> (ids: Vec<String>)
    ensures
        views(ids@) == ids_among(element_views(articles@)),
{
    let mut ids: Vec<String> = Vec::new();
    let mut i: usize = 0;
    while i < articles.len()
        invariant
            i <= articles.len(),
            views(ids@) == ids_among(element_views(articles@).take(i as int)),
        decreases articles.len() - i,
    {
        assert(element_views(articles@).take(i + 1).drop_last() == element_views(articles@).take(
            i as int,
        ));
        match &articles[i].id {
            Some(id) => {
                let ghost before = views(ids@);
                ids.push(id.clone());
                assert(views(ids@) =~= before.push(id@));
            },
            None => {},
        }
        i += 1;
    }
    assert(element_views(articles@).take(articles@.len() as int) == element_views(articles@));
    ids
}

/// The `article` elements of a document.
pub fn articles(document: &str) -> (found: Vec<Element>)
    ensures
        element_views(found@) == articles_of(document@),
{
    select_elements(document, "article")
}

/// The thread identifiers that a listing page names: the `id` of every
/// `article` that has one, in document order, repeats included.
pub fn thread_ids_from_listing(document: &str) -> (ids: Vec<String>)
    ensures
        views(ids@) == thread_ids_of(document@),
{
    let found = articles(document);
    article_ids(&found)
}

/// What is to be done for one post, if anything.
pub fn plan_post(post: &Element, banned: &Vec<String>) -> (plan: Option<PostPlan>)
    ensures
        match plan {
            Some(plan) => post_plan_of(post@, views(banned@)) == Some(plan@),
            None => post_plan_of(post@, views(banned@)) is None,
        },
{
    if post.has_class("post_is_op") || post.has_class("backlink_container") {
        return None;
    }
    let post_id = match &post.id {
        Some(post_id) => post_id.clone(),
        None => {
            return None;
        },
    };
    let media = extract_media_url_from_post(post);
    let hyperlinks = match hyperlinks_excluding(post, banned) {
        Some(hyperlinks) => hyperlinks,
        None => {
            let none: Vec<String> = Vec::new();
            assert(views(none@) =~= Seq::<Seq<char>>::empty());
            none
        },
    };
    Some(PostPlan { post_id, media, hyperlinks })
}

/// What is to be done for each of `posts`, leaving out the posts for
/// which nothing is.
pub fn plan_posts(posts: &Vec<Element>, banned: &Vec<String>) -> (plans: Vec<PostPlan>)
    ensures
        plan_views(plans@) == post_plans_among(element_views(posts@), views(banned@)),
{
    let mut plans: Vec<PostPlan> = Vec::new();
    let mut i: usize = 0;
    while i < posts.len()
        invariant
            i <= posts.len(),
            plan_views(plans@) == post_plans_among(
                element_views(posts@).take(i as int),
                views(banned@),
            ),
        decreases posts.len() - i,
    {
        assert(element_views(posts@).take(i + 1).drop_last() == element_views(posts@).take(
            i as int,
        ));
        match plan_post(&posts[i], banned) {
            Some(plan) => {
                let ghost before = plan_views(plans@);
                plans.push(plan);
                assert(plan_views(plans@) =~= before.push(plan@));
            },
            None => {},
        }
        i += 1;
    }
    assert(element_views(posts@).take(posts@.len() as int) == element_views(posts@));
    plans
}

/// How many of `posts` are without an identifier, the skipped ones not
/// counted.
pub fn count_unidentified(posts: &Vec<Element>) -> (count: usize)
    ensures
        count == unidentified_among(element_views(posts@)),
{
    let mut count: usize = 0;
    let mut i: usize = 0;
    while i < posts.len()
        invariant
            i <= posts.len(),
            count <= i,
            count == unidentified_among(element_views(posts@).take(i as int)),
        decreases posts.len() - i,
    {
        assert(element_views(posts@).take(i + 1).drop_last() == element_views(posts@).take(
            i as int,
        ));
        let post = &posts[i];
        assert(element_views(posts@)[i as int] == post@);
        if !post.has_class("post_is_op") && !post.has_class("backlink_container")
            && post.id.is_none() {
            count += 1;
        }
        i += 1;
    }
    assert(element_views(posts@).take(posts@.len() as int) == element_views(posts@));
    count
}

/// How many posts of a thread page are without an identifier.
pub fn posts_without_id(document: &str) -> (count: usize)
    ensures
        count == unidentified_in_thread(document@),
{
    let found = articles(document);
    count_unidentified(&found)
}

/// What is to be done for the posts of a thread page.
pub fn plan_thread(document: &str, banned: &Vec<String>) -> (plans: Vec<PostPlan>)
    ensures
        plan_views(plans@) == thread_plan_of(document@, views(banned@)),
{
    let found = articles(document);
    plan_posts(&found, banned)
}

/// Address of page `page_number` of the listing.
pub fn listing_url(search_url: &str, page_number: usize) -> (url: String)
    ensures
        url@ == listing_url_of(search_url@, page_number as nat),
{
    let mut url = chars_of(search_url);
    push_all(&mut url, &chars_of("/page/"));
    push_all(&mut url, &decimal_of(page_number));
    string_from_chars(&url)
}

/// Address of a thread.
pub fn thread_url(thread_page_url: &str, thread_id: &str) -> (url: String)
    ensures
        url@ == thread_url_of(thread_page_url@, thread_id@),
{
    let mut url = chars_of(thread_page_url);
    push_all(&mut url, &chars_of(thread_id));
    string_from_chars(&url)
}

/// Path of the hyperlink log.
pub fn hyperlink_log_path(data_dir: &str) -> (path: String)
    ensures
        path@ == hyperlink_log_of(data_dir@),
{
    let mut path = chars_of(data_dir);
    push_all(&mut path, &chars_of("/urls.txt"));
    string_from_chars(&path)
}

/// A line of the hyperlink log.
pub fn hyperlink_line(thread_id: &str, post_id: &str, url: &str) -> (line: String)
    ensures
        line@ == hyperlink_line_of(thread_id@, post_id@, url@),
{
    let mut line = chars_of(thread_id);
    line.push('-');
    push_all(&mut line, &chars_of(post_id));
    line.push(':');
    line.push(' ');
    push_all(&mut line, &chars_of(url));
    assert(line@ =~= hyperlink_line_of(thread_id@, post_id@, url@));
    string_from_chars(&line)
}

/// The lines that a post adds to the hyperlink log, one per hyperlink and
/// in their order.
pub fn hyperlink_lines(hyperlinks: &Vec<String>, thread_id: &str, post_id: &str) -> (lines: Vec<
    String,
>)
    ensures
        views(lines@) == hyperlink_lines_of(thread_id@, post_id@, views(hyperlinks@)),
{
    let mut lines: Vec<String> = Vec::new();
    let mut i: usize = 0;
    while i < hyperlinks.len()
        invariant
            i <= hyperlinks.len(),
            lines@.len() == i,
            forall|k: int|
                0 <= k < i ==> lines@[k]@ == hyperlink_line_of(
                    thread_id@,
                    post_id@,
                    hyperlinks@[k]@,
                ),
        decreases hyperlinks.len() - i,
    {
        lines.push(hyperlink_line(thread_id, post_id, hyperlinks[i].as_str()));
        i += 1;
    }
    assert(views(lines@) =~= hyperlink_lines_of(thread_id@, post_id@, views(hyperlinks@)));
    lines
}

/// Whether there is something to store or to log for the post.
pub fn has_work(plan: &PostPlan) -> (busy: bool)
    ensures
        busy == plan@.has_work(),
{
    plan.media.is_some() || plan.hyperlinks.len() > 0
}

impl Crawl {
    #[verifier::type_invariant]
    spec fn well_formed(self) -> bool {
        &&& (self.phase is FetchingThread || self.phase is StoringMedia
            || self.phase is AppendingLinks) ==> self.thread_index < self.threads@.len()
        &&& (self.phase is StoringMedia || self.phase is AppendingLinks) ==> self.post_index
            < self.posts@.len()
        &&& self.phase is StoringMedia ==> self.posts@[self.post_index as int].media is Some
    }

    /// Begins a crawl over the pages of `config`.
    pub fn new(config: CrawlConfig) -> (crawl: Crawl)
        ensures
            crawl@ == CrawlView::begin(config@),
    {
        let page = config.first_page;
        let phase = if config.first_page <= config.last_page {
            CrawlPhase::FetchingListing
        } else {
            CrawlPhase::Finished
        };
        let crawl = Crawl {
            config,
            page,
            threads: Vec::new(),
            thread_index: 0,
            posts: Vec::new(),
            post_index: 0,
            unidentified: 0,
            phase,
        };
        assert(crawl@.threads =~= Seq::<Seq<char>>::empty());
        assert(crawl@.posts =~= Seq::<PostPlanView>::empty());
        crawl
    }

    /// The settings of the crawl.
    pub fn config(&self) -> (config: &CrawlConfig)
        ensures
            config@ == self@.config,
    {
        &self.config
    }

    /// How many posts without an identifier the thread page that was
    /// read last holds: posts that were passed over and are worth a
    /// warning.
    pub fn unidentified_posts(&self) -> (count: usize)
        ensures
            count == self@.unidentified,
    {
        self.unidentified
    }

    /// Whether every page has been visited.
    pub fn is_finished(&self) -> (finished: bool)
        ensures
            finished == (self@.phase is Finished),
    {
        match self.phase {
            CrawlPhase::Finished => true,
            _ => false,
        }
    }

    /// What to do next.
    pub fn action(&self) -> (action: CrawlAction)
        ensures
            self@.wf(),
            action@ == self@.pending(),
    {
        proof {
            use_type_invariant(self);
        }
        match self.phase {
            CrawlPhase::FetchingListing => CrawlAction::FetchListing {
                page: self.page,
                url: listing_url(self.config.thread_search_url.as_str(), self.page),
            },
            CrawlPhase::FetchingThread => {
                let thread_id = &self.threads[self.thread_index];
                CrawlAction::FetchThread {
                    thread_id: thread_id.clone(),
                    url: thread_url(self.config.thread_page_url.as_str(), thread_id.as_str()),
                }
            },
            CrawlPhase::StoringMedia => {
                let thread_id = &self.threads[self.thread_index];
                let post = &self.posts[self.post_index];
                match &post.media {
                    Some(media) => CrawlAction::StoreMedia {
                        thread_id: thread_id.clone(),
                        post_id: post.post_id.clone(),
                        media: MediaData {
                            url: media.url.clone(),
                            extension: media.extension.clone(),
                        },
                    },
                    None => vstd::pervasive::unreached(),
                }
            },
            CrawlPhase::AppendingLinks => {
                let thread_id = &self.threads[self.thread_index];
                let post = &self.posts[self.post_index];
                CrawlAction::AppendLinks {
                    thread_id: thread_id.clone(),
                    post_id: post.post_id.clone(),
                    path: hyperlink_log_path(self.config.data_destination_dir.as_str()),
                    lines: hyperlink_lines(
                        &post.hyperlinks,
                        thread_id.as_str(),
                        post.post_id.as_str(),
                    ),
                }
            },
            CrawlPhase::Finished => CrawlAction::Done,
        }
    }

    /// Moves on to the next page.
    fn enter_next_page(&mut self)
        ensures
            final(self)@ == old(self)@.at_next_page(),
    {
        self.phase = CrawlPhase::FetchingListing;
        self.threads = Vec::new();
        self.thread_index = 0;
        self.posts = Vec::new();
        self.post_index = 0;
        if self.page < self.config.last_page {
            self.page = self.page + 1;
        } else {
            self.phase = CrawlPhase::Finished;
        }
        assert(self@.threads =~= Seq::<Seq<char>>::empty());
        assert(self@.posts =~= Seq::<PostPlanView>::empty());
    }

    /// Moves on to the next thread.
    fn enter_next_thread(&mut self)
        ensures
            final(self)@ == old(self)@.at_next_thread(),
    {
        if self.thread_index < self.threads.len() && self.thread_index + 1 < self.threads.len() {
            self.phase = CrawlPhase::FetchingThread;
            self.posts = Vec::new();
            self.post_index = 0;
            self.thread_index = self.thread_index + 1;
            assert(self@.posts =~= Seq::<PostPlanView>::empty());
        } else {
            self.enter_next_page();
        }
    }

    /// Moves on to the first post from `from` on that has work.
    fn enter_post(&mut self, from: usize)
        requires
            from <= old(self)@.posts.len(),
            old(self)@.thread_index < old(self)@.threads.len(),
        ensures
            final(self)@ == old(self)@.at_post(from as int),
    {
        proof {
            lemma_next_busy_post(self@.posts, from as int);
        }
        let mut at: usize = from;
        while at < self.posts.len() && !has_work(&self.posts[at])
            invariant
                from <= at <= self.posts.len(),
                *self == *old(self),
                next_busy_post(self@.posts, at as int) == next_busy_post(self@.posts, from as int),
            decreases self.posts.len() - at,
        {
            at += 1;
        }
        if at < self.posts.len() {
            self.phase = CrawlPhase::FetchingThread;
            self.post_index = at;
            if self.posts[at].media.is_some() {
                self.phase = CrawlPhase::StoringMedia;
            } else {
                self.phase = CrawlPhase::AppendingLinks;
            }
        } else {
            self.enter_next_thread();
        }
    }

    /// Takes note of what came of the last action.
    pub fn advance(&mut self, event: CrawlEvent)
        ensures
            old(self)@.wf(),
            final(self)@ == old(self)@.after(event@),
    {
        proof {
            use_type_invariant(&*self);
        }
        match (self.phase, event) {
            (CrawlPhase::FetchingListing, CrawlEvent::Fetched(document)) => {
                let threads = thread_ids_from_listing(document.as_str());
                if threads.len() == 0 {
                    self.enter_next_page();
                } else {
                    self.threads = threads;
                    self.thread_index = 0;
                    self.posts = Vec::new();
                    self.post_index = 0;
                    self.phase = CrawlPhase::FetchingThread;
                    assert(self@.posts =~= Seq::<PostPlanView>::empty());
                }
            },
            (CrawlPhase::FetchingListing, CrawlEvent::FetchFailed) => {
                self.enter_next_page();
            },
            (CrawlPhase::FetchingThread, CrawlEvent::Fetched(document)) => {
                let found = articles(document.as_str());
                let posts = plan_posts(&found, &self.config.banned_urls);
                let unidentified = count_unidentified(&found);
                self.posts = posts;
                self.post_index = 0;
                self.unidentified = unidentified;
                self.enter_post(0);
            },
            (CrawlPhase::FetchingThread, CrawlEvent::FetchFailed) => {
                self.enter_next_thread();
            },
            (CrawlPhase::StoringMedia, CrawlEvent::MediaStored(stored)) => {
                if !stored {
                    self.enter_next_thread();
                } else if self.posts[self.post_index].hyperlinks.len() > 0 {
                    self.phase = CrawlPhase::AppendingLinks;
                } else {
                    let count = self.posts.len();
                    let next = self.post_index + 1;
                    self.enter_post(next);
                }
            },
            (CrawlPhase::AppendingLinks, CrawlEvent::LinksAppended(appended)) => {
                if appended {
                    let count = self.posts.len();
                    let next = self.post_index + 1;
                    self.enter_post(next);
                } else {
                    self.enter_next_thread();
                }
            },
            _ => {},
        }
    }
}

} // verus!
