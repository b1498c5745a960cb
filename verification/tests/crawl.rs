use archive_scraper::crawler::{
    hyperlink_line, hyperlink_lines, hyperlink_log_path, listing_url, posts_without_id,
    thread_url, Crawl, CrawlAction, CrawlConfig, CrawlEvent,
};
use archive_scraper::html_parsing::MediaData;
use archive_scraper::media_store::DownloadAction;

fn config(first_page: usize, last_page: usize) -> CrawlConfig {
    let mut config = CrawlConfig::standard();
    config.first_page = first_page;
    config.last_page = last_page;
    config.thread_search_url = "http://forum/search".to_string();
    config.thread_page_url = "http://forum/thread/".to_string();
    config
}

const LISTING: &str = "<html><body><article id=\"t1\"></article><article id=\"t2\"></article></body></html>";

const THREAD_T1: &str = "<html><body><article id=\"p1\" class=\"post has_image\">\
    <div class=\"post_wrapper\"><div class=\"post_file\">\
    <a class=\"post_file_filename\" href=\"http://x/img.png\" title=\"img.png\">img.png</a></div>\
    <div class=\"text\"><a href=\"https://twitter.com/a\">a</a><a href=\"https://example.com/b\">b</a></div>\
    </div></article></body></html>";

#[test]
fn standard_settings_have_the_usual_values() {
    let config = CrawlConfig::standard();
    assert_eq!(config.request_retry_count, 5);
    assert_eq!(config.retry_wait_nanos, 51_230_508);
    assert_eq!(config.rate_limit_amount, 4);
    assert_eq!(config.rate_limit_interval_nanos, 143_240_219);
    assert_eq!(config.rate_limit_max_tokens, 4);
    assert_eq!(config.deviation_nanos, 236_857_093);
    assert_eq!(config.banned_urls.len(), 21);
    assert_eq!((config.first_page, config.last_page), (1, 52));
    assert_eq!(config.thread_search_url, "https://archive.palanq.win/vt/search/subject/%2Fshon%2F");
    assert_eq!(config.thread_page_url, "https://archive.palanq.win/vt/thread/");
    assert_eq!(config.data_destination_dir, "data");
}

#[test]
fn addresses_and_lines_are_put_together() {
    assert_eq!(listing_url("http://forum/search", 3), "http://forum/search/page/3");
    assert_eq!(listing_url("http://forum/search", 0), "http://forum/search/page/0");
    assert_eq!(listing_url("", 52), "/page/52");
    assert_eq!(listing_url("s", 1_000_007), "s/page/1000007");
    assert_eq!(thread_url("http://forum/thread/", "t1"), "http://forum/thread/t1");
    assert_eq!(hyperlink_log_path("data"), "data/urls.txt");
    assert_eq!(hyperlink_line("t1", "p1", "https://example.com/b"), "t1-p1: https://example.com/b");
    assert_eq!(hyperlink_line("", "", ""), "-: ");
    assert_eq!(
        hyperlink_lines(&vec!["u1".to_string(), "u2".to_string()], "7", "8"),
        vec!["7-8: u1".to_string(), "7-8: u2".to_string()]
    );
    assert!(hyperlink_lines(&vec![], "7", "8").is_empty());
}

#[test]
fn one_page_with_two_threads_end_to_end() {
    let mut crawl = Crawl::new(config(3, 3));
    assert_eq!(
        crawl.action(),
        CrawlAction::FetchListing { page: 3, url: "http://forum/search/page/3".to_string() }
    );
    crawl.advance(CrawlEvent::Fetched(LISTING.to_string()));
    assert_eq!(
        crawl.action(),
        CrawlAction::FetchThread { thread_id: "t1".to_string(), url: "http://forum/thread/t1".to_string() }
    );
    crawl.advance(CrawlEvent::Fetched(THREAD_T1.to_string()));
    let media = MediaData { url: "http://x/img.png".to_string(), extension: "png".to_string() };
    assert_eq!(
        crawl.action(),
        CrawlAction::StoreMedia { thread_id: "t1".to_string(), post_id: "p1".to_string(), media: media.clone() }
    );
    let download = media.download(crawl.config().data_destination_dir.as_str(), "t1", "p1", "");
    assert_eq!(download.action(), DownloadAction::CheckExists { path: "data/t1/t1-p1-.png".to_string() });
    crawl.advance(CrawlEvent::MediaStored(true));
    assert_eq!(
        crawl.action(),
        CrawlAction::AppendLinks {
            thread_id: "t1".to_string(),
            post_id: "p1".to_string(),
            path: "data/urls.txt".to_string(),
            lines: vec!["t1-p1: https://example.com/b".to_string()],
        }
    );
    crawl.advance(CrawlEvent::LinksAppended(true));
    assert_eq!(
        crawl.action(),
        CrawlAction::FetchThread { thread_id: "t2".to_string(), url: "http://forum/thread/t2".to_string() }
    );
    crawl.advance(CrawlEvent::Fetched("<html><body></body></html>".to_string()));
    assert_eq!(crawl.action(), CrawlAction::Done);
    assert!(crawl.is_finished());
    crawl.advance(CrawlEvent::Fetched(LISTING.to_string()));
    assert_eq!(crawl.action(), CrawlAction::Done);
}

#[test]
fn empty_page_range_is_finished_at_once() {
    let crawl = Crawl::new(config(5, 4));
    assert!(crawl.is_finished());
    assert_eq!(crawl.action(), CrawlAction::Done);
}

#[test]
fn failed_and_empty_listings_are_passed_over() {
    let mut crawl = Crawl::new(config(1, 3));
    crawl.advance(CrawlEvent::FetchFailed);
    assert_eq!(
        crawl.action(),
        CrawlAction::FetchListing { page: 2, url: "http://forum/search/page/2".to_string() }
    );
    crawl.advance(CrawlEvent::Fetched("<html><body><article></article></body></html>".to_string()));
    assert_eq!(
        crawl.action(),
        CrawlAction::FetchListing { page: 3, url: "http://forum/search/page/3".to_string() }
    );
    crawl.advance(CrawlEvent::FetchFailed);
    assert_eq!(crawl.action(), CrawlAction::Done);
}

#[test]
fn failed_thread_is_passed_over() {
    let mut crawl = Crawl::new(config(1, 2));
    crawl.advance(CrawlEvent::Fetched(LISTING.to_string()));
    crawl.advance(CrawlEvent::FetchFailed);
    assert_eq!(
        crawl.action(),
        CrawlAction::FetchThread { thread_id: "t2".to_string(), url: "http://forum/thread/t2".to_string() }
    );
    crawl.advance(CrawlEvent::FetchFailed);
    assert_eq!(
        crawl.action(),
        CrawlAction::FetchListing { page: 2, url: "http://forum/search/page/2".to_string() }
    );
}

#[test]
fn failed_media_ends_the_thread() {
    let mut crawl = Crawl::new(config(1, 1));
    crawl.advance(CrawlEvent::Fetched(LISTING.to_string()));
    crawl.advance(CrawlEvent::Fetched(THREAD_T1.to_string()));
    assert!(matches!(crawl.action(), CrawlAction::StoreMedia { .. }));
    crawl.advance(CrawlEvent::MediaStored(false));
    assert_eq!(
        crawl.action(),
        CrawlAction::FetchThread { thread_id: "t2".to_string(), url: "http://forum/thread/t2".to_string() }
    );
}

#[test]
fn unavailable_log_ends_the_thread() {
    let mut crawl = Crawl::new(config(1, 1));
    crawl.advance(CrawlEvent::Fetched(LISTING.to_string()));
    crawl.advance(CrawlEvent::Fetched(THREAD_T1.to_string()));
    crawl.advance(CrawlEvent::MediaStored(true));
    assert!(matches!(crawl.action(), CrawlAction::AppendLinks { .. }));
    crawl.advance(CrawlEvent::LinksAppended(false));
    assert!(matches!(crawl.action(), CrawlAction::FetchThread { .. }));
}

#[test]
fn posts_are_worked_on_in_document_order() {
    let thread = "<article id=\"a\" class=\"post\"><div class=\"post_wrapper\"><div class=\"text\">\
                  <a href=\"https://example.com/1\">x</a></div></div></article>\
                  <article id=\"b\" class=\"post\"><div class=\"post_wrapper\"><div class=\"text\"></div></div></article>\
                  <article id=\"c\" class=\"post has_image\"><div class=\"post_wrapper\"><div class=\"post_file\">\
                  <a class=\"post_file_filename\" href=\"http://x/c.webm\" title=\"c.webm\">c</a></div></div></article>";
    let mut crawl = Crawl::new(config(1, 1));
    crawl.advance(CrawlEvent::Fetched("<article id=\"t\"></article>".to_string()));
    crawl.advance(CrawlEvent::Fetched(thread.to_string()));
    assert_eq!(
        crawl.action(),
        CrawlAction::AppendLinks {
            thread_id: "t".to_string(),
            post_id: "a".to_string(),
            path: "data/urls.txt".to_string(),
            lines: vec!["t-a: https://example.com/1".to_string()],
        }
    );
    crawl.advance(CrawlEvent::MediaStored(true));
    assert!(matches!(crawl.action(), CrawlAction::AppendLinks { .. }));
    crawl.advance(CrawlEvent::LinksAppended(true));
    assert_eq!(
        crawl.action(),
        CrawlAction::StoreMedia {
            thread_id: "t".to_string(),
            post_id: "c".to_string(),
            media: MediaData { url: "http://x/c.webm".to_string(), extension: "webm".to_string() },
        }
    );
    crawl.advance(CrawlEvent::MediaStored(true));
    assert_eq!(crawl.action(), CrawlAction::Done);
}

#[test]
fn posts_without_identifier_are_counted() {
    let thread = "<article class=\"post\"><div class=\"post_wrapper\"><div class=\"text\">\
                  <a href=\"https://example.com/1\">x</a></div></div></article>\
                  <article class=\"post_is_op\"></article><article class=\"backlink_container\"></article>\
                  <article id=\"a\" class=\"post\"></article><article></article>";
    assert_eq!(posts_without_id(thread), 2);
    assert_eq!(posts_without_id(THREAD_T1), 0);
    assert_eq!(posts_without_id(""), 0);

    let mut crawl = Crawl::new(config(1, 1));
    assert_eq!(crawl.unidentified_posts(), 0);
    crawl.advance(CrawlEvent::Fetched(LISTING.to_string()));
    assert_eq!(crawl.unidentified_posts(), 0);
    crawl.advance(CrawlEvent::Fetched(thread.to_string()));
    assert_eq!(crawl.unidentified_posts(), 2);
    assert!(matches!(crawl.action(), CrawlAction::FetchThread { .. }));
    crawl.advance(CrawlEvent::FetchFailed);
    assert_eq!(crawl.unidentified_posts(), 2);
    assert!(crawl.is_finished());
}
