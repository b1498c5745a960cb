use archive_scraper::file_list::{
    download_images_from_file_list, file_appender, parse_file_list, FileListEntry, PlannedDownload,
};
use archive_scraper::html_parsing::MediaData;

fn planned(thread_id: &str, post_id: &str, url: &str, extension: &str, appender: &str) -> PlannedDownload {
    PlannedDownload {
        thread_id: thread_id.to_string(),
        post_id: post_id.to_string(),
        media: MediaData { url: url.to_string(), extension: extension.to_string() },
        file_appender: appender.to_string(),
    }
}

#[test]
fn lines_are_read_as_thread_post_and_address() {
    let entries = parse_file_list(
        "58931442-58935074: https://files.catbox.moe/1qk6mu.mp3\n\
         no separator here\n\
         nodash: https://files.catbox.moe/x.png\n\
         1-2-3: http://h.x/a: b\r\n\
         4-5: nodot",
    );
    assert_eq!(
        entries,
        vec![
            FileListEntry {
                thread_id: "58931442".to_string(),
                post_id: "58935074".to_string(),
                media: MediaData {
                    url: "https://files.catbox.moe/1qk6mu.mp3".to_string(),
                    extension: "mp3".to_string(),
                },
            },
            FileListEntry {
                thread_id: "1".to_string(),
                post_id: "2-3".to_string(),
                media: MediaData { url: "http://h.x/a: b".to_string(), extension: "x/a: b".to_string() },
            },
            FileListEntry {
                thread_id: "4".to_string(),
                post_id: "5".to_string(),
                media: MediaData { url: "nodot".to_string(), extension: "nodot".to_string() },
            },
        ]
    );
    assert!(parse_file_list("").is_empty());
}

#[test]
fn only_posts_named_more_than_once_are_downloaded() {
    let list = "1-10: http://h/a.png\n\
                1-11: http://h/b.png\n\
                2-10: http://h/c.mp4\n\
                1-12: http://h/d.png\n\
                3-10: http://h/e.gif\n\
                1-12: http://h/f.png\n";
    assert_eq!(
        download_images_from_file_list(list),
        vec![
            planned("1", "10", "http://h/a.png", "png", ""),
            planned("2", "10", "http://h/c.mp4", "mp4", "2"),
            planned("1", "12", "http://h/d.png", "png", ""),
            planned("3", "10", "http://h/e.gif", "gif", "3"),
            planned("1", "12", "http://h/f.png", "png", "2"),
        ]
    );
    assert!(download_images_from_file_list("1-10: http://h/a.png\n1-11: http://h/b.png").is_empty());
    assert!(download_images_from_file_list("").is_empty());
}

#[test]
fn first_file_of_a_post_has_no_number() {
    assert_eq!(file_appender(0), "");
    assert_eq!(file_appender(1), "2");
    assert_eq!(file_appender(2), "3");
    assert_eq!(file_appender(9), "10");
}

#[test]
fn planned_file_paths_differ_within_a_post() {
    let downloads = download_images_from_file_list("1-10: http://h/a.png\n1-10: http://h/b.png\n");
    let paths: Vec<String> = downloads
        .into_iter()
        .map(|download| {
            let MediaData { .. } = download.media;
            archive_scraper::media_store::media_file_path(
                "data",
                &download.thread_id,
                &download.post_id,
                &download.file_appender,
                &download.media.extension,
            )
        })
        .collect();
    assert_eq!(paths, vec!["data/1/1-10-.png".to_string(), "data/1/1-10-2.png".to_string()]);
}
