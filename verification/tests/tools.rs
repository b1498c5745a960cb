use archive_scraper::dir_flattener;
use archive_scraper::duplicate_image_remover::{
    self, duplicates_in, group_by_hash, is_image_type, path_is_image, HashedImage,
};
use archive_scraper::file_separation::{
    self, batch_directory, generate_random_string, plan_batches,
};
use archive_scraper::remove_duplicate_urls_from_file::{
    self, deduplicated_lines, format_entry, parse_url_entries, precedence, sort_and_deduplicate,
    Precedence, UrlEntry,
};

fn argv(words: &[&str]) -> Vec<String> {
    words.iter().map(|word| word.to_string()).collect()
}

fn chars(s: &str) -> Vec<char> {
    s.chars().collect()
}

#[test]
fn flattener_arguments_are_read() {
    let args = dir_flattener::Args::new(&argv(&["flatten", "-d", "in", "--dest", "out"]))
        .unwrap_or_else(|_| unreachable!());
    assert_eq!(args.directory(), Some(&"in".to_string()));
    assert_eq!(args.get_directory_path(), "in");
    assert_eq!(args.get_custom_destination(), &Some("out".to_string()));
    assert_eq!(dir_flattener::destination(&args), "out");

    let args = dir_flattener::Args::new(&argv(&["flatten", "--dir=in"])).unwrap_or_else(|_| unreachable!());
    assert_eq!(args.get_directory_path(), "in");
    assert_eq!(args.get_custom_destination(), &None);
    assert_eq!(dir_flattener::destination(&args), "in");

    let args = dir_flattener::Args::new(&argv(&["flatten"])).unwrap_or_else(|_| unreachable!());
    assert_eq!(args.directory(), None);
    assert_eq!(args.get_custom_destination(), &None);
}

#[test]
fn rejected_command_line_keeps_what_would_be_printed() {
    let error = dir_flattener::Args::new(&argv(&["flatten", "--nonsense"])).err().unwrap_or_else(|| unreachable!());
    assert!(error.use_stderr);
    assert_eq!(error.exit_code, 2);
    assert!(error.message.contains("--nonsense"));
    let help = dir_flattener::Args::new(&argv(&["flatten", "--help"])).err().unwrap_or_else(|| unreachable!());
    assert!(!help.use_stderr);
    assert_eq!(help.exit_code, 0);
    assert!(help.message.contains("Determines the directory to flatten."));
    assert!(dir_flattener::Args::new(&argv(&["flatten", "-d"])).is_err());
    assert!(dir_flattener::Args::new(&argv(&["flatten", "-d", "a", "-d", "b"])).is_err());
}

#[test]
fn flattened_files_go_below_the_destination() {
    assert_eq!(dir_flattener::new_location("out", "a.png"), "out/a.png");
    assert_eq!(dir_flattener::new_location("", ""), "/");
    let args = dir_flattener::Args::from_values(Some("in".to_string()), None);
    assert_eq!(dir_flattener::destination(&args), "in");
}

#[test]
fn remover_arguments_are_read() {
    let args = duplicate_image_remover::Args::new(&argv(&["dedup", "--dir", "in", "-m", "out"]))
        .unwrap_or_else(|_| unreachable!());
    assert_eq!(args.get_directory_path(), "in");
    assert_eq!(args.get_destination_path(), &Some("out".to_string()));
    let args = duplicate_image_remover::Args::new(&argv(&["dedup"])).unwrap_or_else(|_| unreachable!());
    assert_eq!(args.directory(), None);
    assert_eq!(args.get_destination_path(), &None);
    assert!(duplicate_image_remover::Args::new(&argv(&["dedup", "-b", "1"])).is_err());
}

#[test]
fn images_are_told_by_extension() {
    assert!(path_is_image("a/b/c.png"));
    assert!(path_is_image("photo.JPG"));
    assert!(path_is_image("x.gif"));
    assert!(!path_is_image("notes.txt"));
    assert!(!path_is_image("clip.mp4"));
    assert!(!path_is_image("noextension"));
    assert!(!path_is_image("image"));
    assert!(is_image_type(&Some("image".to_string())));
    assert!(!is_image_type(&Some("Image".to_string())));
    assert!(!is_image_type(&Some("text".to_string())));
    assert!(!is_image_type(&None));
}

#[test]
fn images_are_grouped_by_hash() {
    let image = |hash: &[u8], path: &str| HashedImage { hash: hash.to_vec(), path: path.to_string() };
    let images = vec![
        image(&[1, 2], "a"),
        image(&[3], "b"),
        image(&[1, 2], "c"),
        image(&[], "d"),
        image(&[3], "e"),
        image(&[1, 2], "f"),
        image(&[1], "g"),
    ];
    let groups = group_by_hash(&images);
    assert_eq!(
        groups,
        vec![
            vec!["a".to_string(), "c".to_string(), "f".to_string()],
            vec!["b".to_string(), "e".to_string()],
            vec!["d".to_string()],
            vec!["g".to_string()],
        ]
    );
    assert_eq!(duplicates_in(&groups[0]), vec!["c".to_string(), "f".to_string()]);
    assert_eq!(duplicates_in(&groups[1]), vec!["e".to_string()]);
    assert!(duplicates_in(&groups[2]).is_empty());
    assert!(duplicates_in(&vec![]).is_empty());
    assert!(group_by_hash(&vec![]).is_empty());
}

#[test]
fn separation_arguments_are_read() {
    let args = file_separation::Args::new(&argv(&["split", "-d", "in", "-b", " 25 "]))
        .unwrap_or_else(|_| unreachable!());
    assert_eq!(args.get_directory_path(), "in");
    assert_eq!(args.batch_size(), Some(25));
    assert_eq!(args.get_batch_size(), 25);
    let args = file_separation::Args::new(&argv(&["split", "--batch", "many"])).unwrap_or_else(|_| unreachable!());
    assert_eq!(args.directory(), None);
    assert_eq!(args.batch_size(), None);
    let args = file_separation::Args::new(&argv(&["split"])).unwrap_or_else(|_| unreachable!());
    assert_eq!(args.batch_size(), None);
    assert!(file_separation::Args::new(&argv(&["split", "-m", "x"])).is_err());
}

#[test]
fn batch_size_is_trimmed_before_it_is_read() {
    let size = |text: &str| file_separation::Args::from_values(None, Some(text.to_string())).batch_size();
    assert_eq!(size("10"), Some(10));
    assert_eq!(size("\t10\n"), Some(10));
    assert_eq!(size("+3"), Some(3));
    assert_eq!(size("0"), Some(0));
    assert_eq!(size(""), None);
    assert_eq!(size("  "), None);
    assert_eq!(size("1 0"), None);
    assert_eq!(size("-1"), None);
    assert_eq!(size("\u{3000}7\u{85}"), Some(7));
    assert_eq!(size("\u{200B}7"), None);
}

#[test]
fn random_names_have_letters_and_digits_only() {
    let name = generate_random_string(10);
    assert_eq!(name.chars().count(), 10);
    assert!(name.chars().all(|c| c.is_ascii_alphanumeric()));
    assert_eq!(generate_random_string(0), "");
    assert_ne!(generate_random_string(32), generate_random_string(32));
    assert_eq!(batch_directory("in", "Ab3"), "in/Ab3");
}

#[test]
fn files_are_cut_into_batches() {
    let paths = argv(&["a", "b", "c", "d", "e"]);
    let plan = plan_batches("in", paths.clone(), 2);
    let files: Vec<Vec<String>> = plan.iter().map(|batch| batch.files.clone()).collect();
    assert_eq!(files, vec![argv(&["a", "b"]), argv(&["c", "d"]), argv(&["e"])]);
    for batch in &plan {
        let name = batch.directory.strip_prefix("in/").unwrap_or_else(|| unreachable!());
        assert_eq!(name.len(), 10);
        assert!(name.chars().all(|c| c.is_ascii_alphanumeric()));
    }
    assert_ne!(plan[0].directory, plan[1].directory);
    assert_eq!(plan_batches("in", paths.clone(), 5).len(), 1);
    assert_eq!(plan_batches("in", paths.clone(), 6).len(), 1);
    assert_eq!(plan_batches("in", paths, 1).len(), 5);
    assert!(plan_batches("in", vec![], 3).is_empty());
}

#[test]
fn deduplication_arguments_are_read() {
    let args = remove_duplicate_urls_from_file::Args::new(&argv(&["urls", "-f", "urls.txt"]))
        .unwrap_or_else(|_| unreachable!());
    assert_eq!(args.file_path(), Some(&"urls.txt".to_string()));
    assert_eq!(args.get_file_path(), "urls.txt");
    let args = remove_duplicate_urls_from_file::Args::new(&argv(&["urls"])).unwrap_or_else(|_| unreachable!());
    assert_eq!(args.file_path(), None);
    assert!(remove_duplicate_urls_from_file::Args::new(&argv(&["urls", "-d", "x"])).is_err());
}

#[test]
fn strings_are_ordered_like_their_bytes() {
    assert_eq!(precedence(&chars("a"), &chars("b")), Precedence::Before);
    assert_eq!(precedence(&chars("b"), &chars("a")), Precedence::After);
    assert_eq!(precedence(&chars("ab"), &chars("ab")), Precedence::Same);
    assert_eq!(precedence(&chars(""), &chars("")), Precedence::Same);
    assert_eq!(precedence(&chars(""), &chars("a")), Precedence::Before);
    assert_eq!(precedence(&chars("ab"), &chars("a")), Precedence::After);
    assert_eq!(precedence(&chars("Z"), &chars("a")), Precedence::Before);
    for (a, b) in [("é", "z"), ("z", "é"), ("日本", "日本語"), ("\u{10000}", "\u{ffff}"), ("a", "a")] {
        let expected = match a.cmp(b) {
            std::cmp::Ordering::Less => Precedence::Before,
            std::cmp::Ordering::Equal => Precedence::Same,
            std::cmp::Ordering::Greater => Precedence::After,
        };
        assert_eq!(precedence(&chars(a), &chars(b)), expected);
    }
}

#[test]
fn urls_are_sorted_and_kept_once_under_their_first_name() {
    let contents = "3-1: http://c\n1-1: http://a\nbroken line\n2-1: http://c\n1-2: http://b\n9-9: http://a\n";
    let entries = parse_url_entries(contents);
    assert_eq!(entries.len(), 5);
    assert_eq!(entries[0], UrlEntry { name: "3-1".to_string(), url: "http://c".to_string() });
    let kept = sort_and_deduplicate(&entries);
    assert_eq!(
        kept,
        vec![
            UrlEntry { name: "1-1".to_string(), url: "http://a".to_string() },
            UrlEntry { name: "1-2".to_string(), url: "http://b".to_string() },
            UrlEntry { name: "3-1".to_string(), url: "http://c".to_string() },
        ]
    );
    assert_eq!(format_entry(&kept[0]), "1-1: http://a");
    assert_eq!(
        deduplicated_lines(contents),
        vec!["1-1: http://a".to_string(), "1-2: http://b".to_string(), "3-1: http://c".to_string()]
    );
    assert!(deduplicated_lines("").is_empty());
    assert_eq!(deduplicated_lines("a: b: c"), vec!["a: b: c".to_string()]);
}

#[test]
fn deduplication_agrees_with_a_stable_sort() {
    let contents = "n1: u5\nn2: u3\nn3: u5\nn4: u1\nn5: u3\nn6: u4\nn7: u1\nn8: u2\n";
    let mut expected: Vec<(&str, &str)> =
        contents.lines().filter_map(|line| line.split_once(": ")).collect();
    expected.sort_by(|a, b| a.1.cmp(b.1));
    expected.dedup_by(|a, b| a.1 == b.1);
    let expected: Vec<String> = expected.iter().map(|(name, url)| format!("{}: {}", name, url)).collect();
    assert_eq!(deduplicated_lines(contents), expected);
}
