use archive_scraper::crawler::{articles, plan_thread, thread_ids_from_listing};
use archive_scraper::dom::{build_tree, select_elements, Attribute, Element, FlatElement};
use archive_scraper::html_parsing::{
    banned_url_list, extract_hyperlinks_from_post, extract_media_url_from_post,
    find_child_with_class, hyperlinks_excluding, is_banned, MediaData,
};

fn element(classes: &[&str], attributes: Vec<Attribute>, children: Vec<Element>) -> Element {
    Element {
        id: None,
        classes: classes.iter().map(|class| class.to_string()).collect(),
        attributes,
        children,
    }
}

fn link(classes: &[&str], href: &str) -> Element {
    element(classes, vec![Attribute::plain("href", href)], vec![])
}

fn post_with_file(post_classes: &[&str], filename: Option<Element>) -> Element {
    let file = element(&["post_file"], vec![], filename.into_iter().collect());
    let wrapper = element(&["post_wrapper"], vec![], vec![file]);
    element(post_classes, vec![], vec![wrapper])
}

fn filename(href: &str, title: &str) -> Element {
    element(
        &["post_file_filename"],
        vec![Attribute::plain("href", href), Attribute::plain("title", title)],
        vec![],
    )
}

fn post_with_text(children: Vec<Element>) -> Element {
    let text = element(&["text"], vec![], children);
    let wrapper = element(&["post_wrapper"], vec![], vec![text]);
    element(&["post"], vec![], vec![wrapper])
}

#[test]
fn post_without_image_class_has_no_media() {
    let post = post_with_file(&["post"], Some(filename("http://x/img.png", "img.png")));
    assert_eq!(extract_media_url_from_post(&post), None);
}

#[test]
fn marked_post_without_filename_element_has_no_media() {
    let post = post_with_file(&["post", "has_image"], None);
    assert_eq!(extract_media_url_from_post(&post), None);
    let bare = element(&["has_image"], vec![], vec![]);
    assert_eq!(extract_media_url_from_post(&bare), None);
}

#[test]
fn extension_is_the_last_dot_segment() {
    let post = post_with_file(&["post", "has_image"], Some(filename("http://x/1.png", "foo.bar.png")));
    assert_eq!(
        extract_media_url_from_post(&post),
        Some(MediaData { url: "http://x/1.png".to_string(), extension: "png".to_string() })
    );
}

#[test]
fn filename_without_dot_has_no_media() {
    let post = post_with_file(&["has_image"], Some(filename("http://x/1", "picture")));
    assert_eq!(extract_media_url_from_post(&post), None);
}

#[test]
fn filename_ending_in_dot_has_empty_extension() {
    let post = post_with_file(&["has_image"], Some(filename("http://x/1", "picture.")));
    assert_eq!(
        extract_media_url_from_post(&post),
        Some(MediaData { url: "http://x/1".to_string(), extension: String::new() })
    );
}

#[test]
fn filename_without_href_or_title_has_no_media() {
    let no_title = element(&["post_file_filename"], vec![Attribute::plain("href", "http://x/1.png")], vec![]);
    assert_eq!(extract_media_url_from_post(&post_with_file(&["has_image"], Some(no_title))), None);
    let no_href = element(&["post_file_filename"], vec![Attribute::plain("title", "a.png")], vec![]);
    assert_eq!(extract_media_url_from_post(&post_with_file(&["has_image"], Some(no_href))), None);
}

#[test]
fn namespaced_attribute_is_no_plain_attribute() {
    let mut name = filename("http://x/1.png", "a.png");
    name.attributes[0].namespace = "http://www.w3.org/1999/xlink".to_string();
    assert_eq!(name.attr("href"), None);
    assert_eq!(name.attr("title"), Some(&"a.png".to_string()));
    assert_eq!(extract_media_url_from_post(&post_with_file(&["has_image"], Some(name))), None);
}

#[test]
fn class_names_are_compared_exactly() {
    let post = post_with_file(&["Has_Image"], Some(filename("http://x/1.png", "a.png")));
    assert!(!post.has_class("has_image"));
    assert!(post.has_class("Has_Image"));
    assert_eq!(extract_media_url_from_post(&post), None);
}

#[test]
fn only_the_plain_link_is_kept() {
    let post = post_with_text(vec![
        link(&["backlink"], "https://example.com/reply"),
        link(&[], "https://www.youtube.com/watch?v=1"),
        link(&[], "https://example.com/b"),
    ]);
    assert_eq!(extract_hyperlinks_from_post(&post), Some(vec!["https://example.com/b".to_string()]));
}

#[test]
fn post_without_text_container_has_no_link_list() {
    let wrapper = element(&["post_wrapper"], vec![], vec![link(&[], "https://example.com/b")]);
    let post = element(&["post"], vec![], vec![wrapper]);
    assert_eq!(extract_hyperlinks_from_post(&post), None);
    let no_wrapper = element(&["post"], vec![], vec![element(&["text"], vec![], vec![])]);
    assert_eq!(extract_hyperlinks_from_post(&no_wrapper), None);
}

#[test]
fn text_container_without_links_gives_empty_list() {
    let post = post_with_text(vec![element(&["quote"], vec![], vec![])]);
    assert_eq!(extract_hyperlinks_from_post(&post), Some(vec![]));
    assert_eq!(extract_hyperlinks_from_post(&post_with_text(vec![])), Some(vec![]));
}

#[test]
fn banned_match_ignores_case_of_the_link() {
    let post = post_with_text(vec![
        link(&[], "https://WWW.YouTube.com/watch"),
        link(&[], "https://Example.com/Keep"),
    ]);
    assert_eq!(extract_hyperlinks_from_post(&post), Some(vec!["https://Example.com/Keep".to_string()]));
}

#[test]
fn banned_match_is_by_substring() {
    let post = post_with_text(vec![
        link(&[], "https://en.wikipedia.org/wiki/Rust"),
        link(&[], "https://linux.org/"),
        link(&[], "https://example.org/x"),
    ]);
    assert_eq!(extract_hyperlinks_from_post(&post), Some(vec!["https://example.org/x".to_string()]));
}

#[test]
fn links_keep_document_order_and_repeats() {
    let post = post_with_text(vec![
        link(&[], "https://b.example/2"),
        link(&[], "https://a.example/1"),
        link(&[], "https://b.example/2"),
    ]);
    assert_eq!(
        extract_hyperlinks_from_post(&post),
        Some(vec![
            "https://b.example/2".to_string(),
            "https://a.example/1".to_string(),
            "https://b.example/2".to_string(),
        ])
    );
}

#[test]
fn only_direct_children_of_the_text_count() {
    let nested = element(&["quote"], vec![], vec![link(&[], "https://example.com/deep")]);
    let post = post_with_text(vec![nested, link(&[], "https://example.com/top")]);
    assert_eq!(extract_hyperlinks_from_post(&post), Some(vec!["https://example.com/top".to_string()]));
}

#[test]
fn custom_banned_list_is_used() {
    let post = post_with_text(vec![link(&[], "https://example.com/b"), link(&[], "https://youtube.com/")]);
    let banned = vec!["example.".to_string()];
    assert_eq!(hyperlinks_excluding(&post, &banned), Some(vec!["https://youtube.com/".to_string()]));
    assert_eq!(
        hyperlinks_excluding(&post, &vec![]),
        Some(vec!["https://example.com/b".to_string(), "https://youtube.com/".to_string()])
    );
}

#[test]
fn banned_list_has_its_entries() {
    let banned = banned_url_list();
    assert_eq!(banned.len(), 21);
    assert_eq!(banned[0], "x.");
    assert_eq!(banned[1], "twitter.");
    assert_eq!(banned[13], "spanix");
    assert_eq!(banned[20], "amazon.");
    assert!(is_banned("https://twitter.com/a", &banned));
    assert!(is_banned("https://spanix/a", &banned));
    assert!(!is_banned("https://example.com/b", &banned));
    assert!(!is_banned("https://TWITTER.com/a", &banned));
    assert!(!is_banned("", &banned));
}

#[test]
fn first_child_with_class_is_found() {
    let mut first = element(&["a", "target"], vec![], vec![]);
    first.id = Some("one".to_string());
    let mut second = element(&["target"], vec![], vec![]);
    second.id = Some("two".to_string());
    let parent = element(&[], vec![], vec![element(&["other"], vec![], vec![]), first, second]);
    let found = find_child_with_class(&parent, "target");
    assert_eq!(found.and_then(|child| child.id.clone()), Some("one".to_string()));
    assert!(find_child_with_class(&parent, "missing").is_none());
    assert!(find_child_with_class(&parent, "").is_none());
}

#[test]
fn listing_ids_come_in_document_order_with_repeats() {
    let listing = "<html><body><article id=\"t1\"></article><article></article>\
                   <div><article id=\"t2\"></article></div><article id=\"t1\"></article></body></html>";
    assert_eq!(
        thread_ids_from_listing(listing),
        vec!["t1".to_string(), "t2".to_string(), "t1".to_string()]
    );
    assert_eq!(thread_ids_from_listing("<html><body><p>nothing</p></body></html>"), Vec::<String>::new());
    assert_eq!(thread_ids_from_listing(""), Vec::<String>::new());
}

#[test]
fn parsed_articles_carry_classes_attributes_and_children() {
    let document = "<article id=\"p1\" class=\"post has_image\"><div class=\"post_wrapper\">\
                    <a class=\"x\" href=\"https://example.com/\" title=\"T\">t</a>text</div></article>";
    let found = articles(document);
    assert_eq!(found.len(), 1);
    let post = &found[0];
    assert_eq!(post.id, Some("p1".to_string()));
    assert!(post.has_class("post") && post.has_class("has_image"));
    assert_eq!(post.children.len(), 1);
    let wrapper = &post.children[0];
    assert!(wrapper.has_class("post_wrapper"));
    assert_eq!(wrapper.children.len(), 1);
    assert_eq!(wrapper.children[0].attr("href"), Some(&"https://example.com/".to_string()));
    assert_eq!(wrapper.children[0].attr("title"), Some(&"T".to_string()));
    assert_eq!(wrapper.children[0].attr("class"), Some(&"x".to_string()));
    assert_eq!(wrapper.children[0].attr("id"), None);
}

#[test]
fn thread_plan_skips_opening_post_backlinks_and_posts_without_id() {
    let document = "<article id=\"op\" class=\"post_is_op\"><div class=\"post_wrapper\"><div class=\"text\">\
                    <a href=\"https://example.com/op\">x</a></div></div></article>\
                    <article id=\"bl\" class=\"backlink_container\"></article>\
                    <article class=\"post\"><div class=\"post_wrapper\"><div class=\"text\">\
                    <a href=\"https://example.com/noid\">x</a></div></div></article>\
                    <article id=\"p2\" class=\"post\"><div class=\"post_wrapper\"><div class=\"text\">\
                    <a href=\"https://example.com/kept\">x</a></div></div></article>\
                    <article id=\"p3\" class=\"post\"></article>";
    let plans = plan_thread(document, &banned_url_list());
    assert_eq!(plans.len(), 2);
    assert_eq!(plans[0].post_id, "p2");
    assert_eq!(plans[0].media, None);
    assert_eq!(plans[0].hyperlinks, vec!["https://example.com/kept".to_string()]);
    assert_eq!(plans[1].post_id, "p3");
    assert_eq!(plans[1].media, None);
    assert!(plans[1].hyperlinks.is_empty());
}

fn flat(depth: usize, id: &str) -> FlatElement {
    FlatElement { depth, id: Some(id.to_string()), classes: vec![], attributes: vec![] }
}

fn shape(element: &Element) -> String {
    let children: Vec<String> = element.children.iter().map(shape).collect();
    format!("{}[{}]", element.id.clone().unwrap_or_default(), children.join(","))
}

#[test]
fn flat_list_is_rebuilt_as_a_tree() {
    let list = vec![flat(2, "r"), flat(3, "a"), flat(4, "a1"), flat(3, "b"), flat(4, "b1"), flat(4, "b2"), flat(5, "x")];
    assert_eq!(build_tree(&list).map(|tree| shape(&tree)), Some("r[a[a1[]],b[b1[],b2[x[]]]]".to_string()));
    assert_eq!(build_tree(&vec![flat(0, "only")]).map(|tree| shape(&tree)), Some("only[]".to_string()));
    assert_eq!(build_tree(&vec![]), None);
}

#[test]
fn what_follows_the_subtree_is_left_out() {
    let list = vec![flat(1, "r"), flat(2, "a"), flat(1, "sibling"), flat(2, "nephew")];
    assert_eq!(build_tree(&list).map(|tree| shape(&tree)), Some("r[a[]]".to_string()));
    let ending = vec![flat(3, "r"), flat(4, "a"), flat(2, "uncle"), flat(4, "far")];
    assert_eq!(build_tree(&ending).map(|tree| shape(&tree)), Some("r[a[]]".to_string()));
    let deepest = vec![flat(usize::MAX, "r"), flat(0, "x")];
    assert_eq!(build_tree(&deepest).map(|tree| shape(&tree)), Some("r[]".to_string()));
}

#[test]
fn tree_keeps_classes_and_attributes() {
    let mut root = flat(7, "r");
    root.classes = vec!["one".to_string(), "two".to_string()];
    root.attributes = vec![Attribute::plain("href", "h")];
    let tree = build_tree(&vec![root]).unwrap_or_else(|| unreachable!());
    assert!(tree.has_class("one") && tree.has_class("two") && !tree.has_class("three"));
    assert_eq!(tree.attr("href"), Some(&"h".to_string()));
}

#[test]
fn selection_follows_the_selector() {
    let document = "<div id=\"a\"><p id=\"b\"><span id=\"c\"></span></p><p id=\"d\"></p></div><p id=\"e\"></p>";
    let found: Vec<String> = select_elements(document, "p").iter().map(shape).collect();
    assert_eq!(found, vec!["b[c[]]", "d[]", "e[]"]);
    let found: Vec<String> = select_elements(document, "div").iter().map(shape).collect();
    assert_eq!(found, vec!["a[b[c[]],d[]]"]);
    assert!(select_elements(document, "article").is_empty());
    assert!(select_elements(document, "p[").is_empty());
    let nested = "<article id=\"o\"><article id=\"i\"></article></article>";
    let found: Vec<String> = select_elements(nested, "article").iter().map(shape).collect();
    assert_eq!(found, vec!["o[i[]]", "i[]"]);
}

#[test]
fn element_below_a_node_that_is_no_element_is_nobodys_child() {
    let list = vec![flat(0, "r"), flat(1, "a"), flat(3, "inside"), flat(1, "b")];
    assert_eq!(build_tree(&list).map(|tree| shape(&tree)), Some("r[a[],b[]]".to_string()));
    let skipping = vec![flat(0, "r"), flat(2, "too deep"), flat(3, "deeper"), flat(1, "late"), flat(2, "child")];
    assert_eq!(build_tree(&skipping).map(|tree| shape(&tree)), Some("r[late[child[]]]".to_string()));
    let nested = vec![flat(0, "r"), flat(1, "a"), flat(2, "a1"), flat(4, "gap"), flat(2, "a2"), flat(1, "b")];
    assert_eq!(build_tree(&nested).map(|tree| shape(&tree)), Some("r[a[a1[],a2[]],b[]]".to_string()));
}

#[test]
fn siblings_after_a_template_are_kept() {
    let document = "<div id=\"d\"><template id=\"t\"><p id=\"inside\"><b id=\"deep\"></b></p></template>\
                    <span id=\"after\"><i id=\"i\"></i></span><em id=\"last\"></em></div>";
    let found: Vec<String> = select_elements(document, "div").iter().map(shape).collect();
    assert_eq!(found, vec!["d[t[],after[i[]],last[]]"]);
    let post = "<article id=\"p\" class=\"post\"><template><p></p></template><div class=\"post_wrapper\">\
                <template><p></p></template><div class=\"text\"><template><a href=\"https://example.com/in\"></a></template>\
                <a href=\"https://example.com/b\">b</a></div></div></article>";
    let found = select_elements(post, "article");
    assert_eq!(found.len(), 1);
    assert_eq!(extract_hyperlinks_from_post(&found[0]), Some(vec!["https://example.com/b".to_string()]));
}
