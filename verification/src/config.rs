//! The settings of a crawl, and the values used when nothing else is asked.

use vstd::prelude::*;

verus! {

/// Tokens added to the rate limiter's bucket per refill.
pub const MAX_REQUEST_RATE_LIMIT: u64 = 4;

/// Most tokens the bucket holds.
pub const MAX_TOKENS: u64 = 4;

/// Time between refills, in nanoseconds.
pub const BASE_RATE_LIMIT_NANOS: u64 = 143_240_219;

/// Pause after a failed attempt, in nanoseconds.
pub const RETRY_REQUEST_WAIT_NANOS: u64 = 51_230_508;

/// Attempts made for one request.
pub const REQUEST_RETRY_COUNT: usize = 5;

/// Upper bound, exclusive, of the random delay added to each admitted
/// request, in nanoseconds.
pub const DEVIATION: u64 = 236_857_093;

/// First page of the listing that is crawled.
pub const FIRST_PAGE: usize = 1;

/// Last page of the listing that is crawled.
pub const LAST_PAGE: usize = 52;

/// Address of the listing, without the page.
pub const THREAD_SEARCH_URL: &'static str =
    "https://archive.palanq.win/vt/search/subject/%2Fshon%2F";

/// Address of a thread, without its identifier.
pub const THREAD_PAGE_URL: &'static str = "https://archive.palanq.win/vt/thread/";

/// Directory under which everything is stored.
pub const DATA_DESTINATION_DIR: &'static str = "data";

} // verus!
