//! What the crawler reads out of one post: its media attachment and the
//! hyperlinks worth keeping.

use vstd::prelude::*;
use crate::dom::{
    Element,
    ElementView,
    lemma_position_with_class,
    lemma_position_with_class_is,
};
use crate::text::{
    chars_of,
    contains,
    last_segment,
    lemma_last_segment_after,
    lowercase_of,
    occurs_in,
    rfind_char,
    slice_chars,
    string_from_chars,
    to_lowercase,
    vec_views,
    views,
};

verus! {

/// A media attachment: where to fetch it and the extension to store it under.
#[derive(Clone, Debug, PartialEq, Eq)]
pub struct MediaData {
    pub url: String,
    pub extension: String,
}

pub struct MediaDataView {
    pub url: Seq<char>,
    pub extension: Seq<char>,
}

impl View for MediaData {
    type V = MediaDataView;

    open spec fn view(&self) -> MediaDataView {
        MediaDataView { url: self.url@, extension: self.extension@ }
    }
}

/// Substrings that disqualify a hyperlink, matched against its lowercase form.
pub open spec fn banned_substrings() -> Seq<Seq<char>> {
    seq![
        "x."@,
        "twitter."@,
        "youtube."@,
        "twitch."@,
        "youtu."@,
        "wikipedia."@,
        "steampowered."@,
        "amiami."@,
        "gov."@,
        "gitlab."@,
        "github."@,
        "fandom."@,
        "poal."@,
        "spanix"@,
        "pixiv."@,
        "amazon."@,
        "gamersupps."@,
        "nexusmods."@,
        "speedrun."@,
        "yle."@,
        "amazon."@,
    ]
}

/// `text` holds at least one entry of `banned` as a substring.
pub open spec fn mentions_any(text: Seq<char>, banned: Seq<Seq<char>>) -> bool {
    exists|i: int| 0 <= i < banned.len() && occurs_in(text, #[trigger] banned[i])
}

/// The hyperlink that one child of a post's text contributes, if any: the
/// child is no backlink, has an `href`, and the lowercase form of that
/// `href` mentions nothing banned.
pub open spec fn link_of(child: ElementView, banned: Seq<Seq<char>>) -> Option<Seq<char>> {
    if child.has_class("backlink"@) {
        None
    } else {
        match child.attr("href"@) {
            None => None,
            Some(href) => if mentions_any(lowercase_of(href), banned) {
                None
            } else {
                Some(href)
            },
        }
    }
}

/// The hyperlinks that `children` contribute, in document order.
pub open spec fn links_among(children: Seq<ElementView>, banned: Seq<Seq<char>>) -> Seq<Seq<char>>
    decreases children.len(),
{
    if children.len() == 0 {
        Seq::empty()
    } else {
        let before = links_among(children.drop_last(), banned);
        match link_of(children.last(), banned) {
            Some(href) => before.push(href),
            None => before,
        }
    }
}

/// The hyperlinks of a post: those among the children of the `text` child
/// of its `post_wrapper` child. `None` when either of the two is missing.
pub open spec fn hyperlinks_of_post(post: ElementView, banned: Seq<Seq<char>>) -> Option<
    Seq<Seq<char>>,
> {
    match post.child_with_class("post_wrapper"@) {
        None => None,
        Some(wrapper) => match wrapper.child_with_class("text"@) {
            None => None,
            Some(text) => Some(links_among(text.children, banned)),
        },
    }
}

/// The element that names a post's attachment: the `post_file_filename`
/// child of the `post_file` child of the `post_wrapper` child.
pub open spec fn filename_element_of(post: ElementView) -> Option<ElementView> {
    match post.child_with_class("post_wrapper"@) {
        None => None,
        Some(wrapper) => match wrapper.child_with_class("post_file"@) {
            None => None,
            Some(file) => file.child_with_class("post_file_filename"@),
        },
    }
}

/// The media reference that a filename element declares: its `href` is
/// the source, and the part of its `title` after the last `.` is the
/// extension. Nothing without either attribute, or without a `.`.
pub open spec fn media_named_by(filename: ElementView) -> Option<MediaDataView> {
    match filename.attr("href"@) {
        None => None,
        Some(url) => match filename.attr("title"@) {
            None => None,
            Some(title) => if title.contains('.') {
                Some(MediaDataView { url, extension: last_segment(title, '.') })
            } else {
                None
            },
        },
    }
}

/// The media reference of a post. Only a post marked `has_image` has one.
pub open spec fn media_of_post(post: ElementView) -> Option<MediaDataView> {
    if !post.has_class("has_image"@) {
        None
    } else {
        match filename_element_of(post) {
            None => None,
            Some(filename) => media_named_by(filename),
        }
    }
}

/// A post without the `has_image` class has no media reference, whatever
/// it holds inside.
pub proof fn lemma_unmarked_post_has_no_media(post: ElementView)
    requires
        !post.has_class("has_image"@),
    ensures
        media_of_post(post) is None,
{
}

/// A post in which no element names an attachment has no media
/// reference, marked or not.
pub proof fn lemma_post_without_filename_has_no_media(post: ElementView)
    requires
        filename_element_of(post) is None,
    ensures
        media_of_post(post) is None,
{
}

/// A post without a text container has no list of hyperlinks at all; a
/// post with one has a list, which may be empty.
pub proof fn lemma_hyperlinks_need_text_container(post: ElementView, banned: Seq<Seq<char>>)
    ensures
        hyperlinks_of_post(post, banned) is Some <==> (post.child_with_class("post_wrapper"@)
            is Some && post.child_with_class("post_wrapper"@)->0.child_with_class("text"@)
            is Some),
{
}

/// Every hyperlink kept from a list of children is the `href` of one of
/// them, that child is no backlink, and the lowercase form of the link
/// mentions nothing banned.
pub proof fn lemma_links_are_clean(children: Seq<ElementView>, banned: Seq<Seq<char>>, i: int)
    requires
        0 <= i < links_among(children, banned).len(),
    ensures
        !mentions_any(lowercase_of(links_among(children, banned)[i]), banned),
        exists|k: int|
            0 <= k < children.len() && !(#[trigger] children[k]).has_class("backlink"@)
                && children[k].attr("href"@) == Some(links_among(children, banned)[i]),
    decreases children.len(),
{
    let before = links_among(children.drop_last(), banned);
    let last = children.len() - 1;
    if i < before.len() {
        lemma_links_are_clean(children.drop_last(), banned, i);
        let k = choose|k: int|
            0 <= k < children.drop_last().len() && !(#[trigger] children.drop_last()[k]).has_class(
                "backlink"@,
            ) && children.drop_last()[k].attr("href"@) == Some(before[i]);
        assert(children[k] == children.drop_last()[k]);
    } else {
        assert(link_of(children[last], banned) == Some(links_among(children, banned)[i]));
        assert(!children[last].has_class("backlink"@));
    }
}

/// No more hyperlinks are kept than there are children.
pub proof fn lemma_links_bounded(children: Seq<ElementView>, banned: Seq<Seq<char>>)
    ensures
        links_among(children, banned).len() <= children.len(),
    decreases children.len(),
{
    if children.len() > 0 {
        lemma_links_bounded(children.drop_last(), banned);
    }
}

/// The banned substrings as strings.
pub fn banned_url_list() -> (list: Vec<String>)
    ensures
        views(list@) == banned_substrings(),
{
    let mut list: Vec<String> = Vec::new();
    list.push("x.".to_owned());
    list.push("twitter.".to_owned());
    list.push("youtube.".to_owned());
    list.push("twitch.".to_owned());
    list.push("youtu.".to_owned());
    list.push("wikipedia.".to_owned());
    list.push("steampowered.".to_owned());
    list.push("amiami.".to_owned());
    list.push("gov.".to_owned());
    list.push("gitlab.".to_owned());
    list.push("github.".to_owned());
    list.push("fandom.".to_owned());
    list.push("poal.".to_owned());
    list.push("spanix".to_owned());
    list.push("pixiv.".to_owned());
    list.push("amazon.".to_owned());
    list.push("gamersupps.".to_owned());
    list.push("nexusmods.".to_owned());
    list.push("speedrun.".to_owned());
    list.push("yle.".to_owned());
    list.push("amazon.".to_owned());
    assert(views(list@) =~= banned_substrings());
    list
}

/// The characters of each string of `strings`.
pub fn chars_of_each(strings: &Vec<String>) -> (all: Vec<Vec<char>>)
    ensures
        vec_views(all@) == views(strings@),
{
    let mut all: Vec<Vec<char>> = Vec::new();
    let mut i: usize = 0;
    while i < strings.len()
        invariant
            i <= strings.len(),
            all@.len() == i,
            vec_views(all@) == views(strings@.take(i as int)),
        decreases strings.len() - i,
    {
        let chars = chars_of(strings[i].as_str());
        let ghost before = all@;
        all.push(chars);
        assert forall|k: int| 0 <= k < all@.len() implies vec_views(all@)[k] == views(
            strings@.take(i + 1),
        )[k] by {
            if k < i {
                assert(vec_views(before)[k] == views(strings@.take(i as int))[k]);
            }
        }
        assert(vec_views(all@) =~= views(strings@.take(i + 1)));
        i += 1;
    }
    assert(strings@.take(strings@.len() as int) == strings@);
    all
}

/// Whether `text` holds one of `banned` as a substring.
pub fn mentions_any_of(text: &Vec<char>, banned: &Vec<Vec<char>>) -> (found: bool)
    ensures
        found == mentions_any(text@, vec_views(banned@)),
{
    let mut i: usize = 0;
    while i < banned.len()
        invariant
            i <= banned.len(),
            forall|k: int| 0 <= k < i ==> !occurs_in(text@, #[trigger] vec_views(banned@)[k]),
        decreases banned.len() - i,
    {
        if contains(text, &banned[i]) {
            assert(occurs_in(text@, vec_views(banned@)[i as int]));
            return true;
        }
        i += 1;
    }
    false
}

/// Whether an already lowercased hyperlink mentions one of `banned`.
pub fn is_banned(lowered: &str, banned: &Vec<String>) -> (found: bool)
    ensures
        found == mentions_any(lowered@, views(banned@)),
{
    let text = chars_of(lowered);
    let needles = chars_of_each(banned);
    mentions_any_of(&text, &needles)
}

/// The first child of `element` that carries `class`.
pub fn find_child_with_class<'a>(element: &'a Element, class: &str) -> (child: Option<
    &'a Element,
>)
    ensures
        match child {
            Some(child) => element@.child_with_class(class@) == Some(child@),
            None => element@.child_with_class(class@) is None,
        },
{
    let mut i: usize = 0;
    while i < element.children.len()
        invariant
            i <= element.children.len(),
            forall|k: int| 0 <= k < i ==> !element@.children[k].has_class(class@),
        decreases element.children.len() - i,
    {
        let child = &element.children[i];
        assert(child@ == element@.children[i as int]);
        if child.has_class(class) {
            proof {
                lemma_position_with_class_is(element@.children, class@, i as int);
            }
            return Some(child);
        }
        i += 1;
    }
    proof {
        lemma_position_with_class(element@.children, class@);
    }
    None
}

/// The hyperlink that `child` contributes, if any.
pub fn link_from_child(child: &Element, banned: &Vec<Vec<char>>) -> (link: Option<String>)
    ensures
        match link {
            Some(href) => link_of(child@, vec_views(banned@)) == Some(href@),
            None => link_of(child@, vec_views(banned@)) is None,
        },
{
    if child.has_class("backlink") {
        return None;
    }
    match child.attr("href") {
        None => None,
        Some(href) => {
            let lowered = to_lowercase(href.as_str());
            let text = chars_of(lowered.as_str());
            if mentions_any_of(&text, banned) {
                None
            } else {
                Some(href.clone())
            }
        },
    }
}

/// The hyperlinks of a post that mention none of `banned`, in document
/// order. `None` when the post has no text container; an empty list when
/// the container is there and nothing in it qualifies.
pub fn hyperlinks_excluding(post: &Element, banned: &Vec<String>) -> (links: Option<Vec<String>>)
    ensures
        match links {
            Some(links) => hyperlinks_of_post(post@, views(banned@)) == Some(views(links@)),
            None => hyperlinks_of_post(post@, views(banned@)) is None,
        },
{
    let wrapper = match find_child_with_class(post, "post_wrapper") {
        Some(wrapper) => wrapper,
        None => {
            return None;
        },
    };
    let text = match find_child_with_class(wrapper, "text") {
        Some(text) => text,
        None => {
            return None;
        },
    };
    let needles = chars_of_each(banned);
    let mut links: Vec<String> = Vec::new();
    let mut i: usize = 0;
    while i < text.children.len()
        invariant
            i <= text.children.len(),
            vec_views(needles@) == views(banned@),
            views(links@) == links_among(text@.children.take(i as int), views(banned@)),
        decreases text.children.len() - i,
    {
        let child = &text.children[i];
        assert(child@ == text@.children[i as int]);
        assert(text@.children.take(i + 1).drop_last() == text@.children.take(i as int));
        match link_from_child(child, &needles) {
            Some(href) => {
                links.push(href);
                assert(views(links@) =~= links_among(
                    text@.children.take(i as int),
                    views(banned@),
                ).push(href@));
            },
            None => {},
        }
        i += 1;
    }
    assert(text@.children.take(text@.children.len() as int) == text@.children);
    Some(links)
}

/// The hyperlinks of a post that mention nothing on the banned list.
pub fn extract_hyperlinks_from_post(post: &Element) -> (links: Option<Vec<String>>)
    ensures
        match links {
            Some(links) => hyperlinks_of_post(post@, banned_substrings()) == Some(views(links@)),
            None => hyperlinks_of_post(post@, banned_substrings()) is None,
        },
{
    let banned = banned_url_list();
    hyperlinks_excluding(post, &banned)
}

/// The element that names a post's attachment.
pub fn find_filename_element(post: &Element) -> (filename: Option<&Element>)
    ensures
        match filename {
            Some(filename) => filename_element_of(post@) == Some(filename@),
            None => filename_element_of(post@) is None,
        },
{
    match find_child_with_class(post, "post_wrapper") {
        None => None,
        Some(wrapper) => match find_child_with_class(wrapper, "post_file") {
            None => None,
            Some(file) => find_child_with_class(file, "post_file_filename"),
        },
    }
}

/// The media reference of a post, if it has one.
pub fn extract_media_url_from_post(post: &Element) -> (media: Option<MediaData>)
    ensures
        match media {
            Some(media) => media_of_post(post@) == Some(media@),
            None => media_of_post(post@) is None,
        },
{
    if !post.has_class("has_image") {
        return None;
    }
    let filename = match find_filename_element(post) {
        Some(filename) => filename,
        None => {
            return None;
        },
    };
    let url = match filename.attr("href") {
        Some(url) => url,
        None => {
            return None;
        },
    };
    let title = match filename.attr("title") {
        Some(title) => title,
        None => {
            return None;
        },
    };
    let name = chars_of(title.as_str());
    match rfind_char(&name, '.') {
        None => {
            assert(!name@.contains('.'));
            None
        },
        Some(at) => {
            proof {
                lemma_last_segment_after(name@, '.', at as int);
                assert(name@.contains('.'));
            }
            let extension = slice_chars(&name, at + 1, name.len());
            Some(MediaData { url: url.clone(), extension: string_from_chars(&extension) })
        },
    }
}

} // verus!
