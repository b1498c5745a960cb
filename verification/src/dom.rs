//! A plain model of the parts of an HTML document that the crawler reads.
//!
//! Parsing and selector matching are done by the `scraper` crate. It hands
//! over each selected element as a flat list, the element and its
//! descendants in document order, each with its depth. From such a list the
//! library builds an `Element`, a tree of ordinary values, and everything the
//! crawler decides is decided on that tree.

use vstd::prelude::*;
use crate::text::{chars_of, same_chars};

verus! {

/// One attribute of an element.
#[derive(Clone, Debug, PartialEq, Eq)]
pub struct Attribute {
    /// Namespace URI; empty for an ordinary HTML attribute.
    pub namespace: String,
    /// Local name.
    pub name: String,
    pub value: String,
}

pub struct AttributeView {
    pub namespace: Seq<char>,
    pub name: Seq<char>,
    pub value: Seq<char>,
}

impl View for Attribute {
    type V = AttributeView;

    open spec fn view(&self) -> AttributeView {
        AttributeView { namespace: self.namespace@, name: self.name@, value: self.value@ }
    }
}

impl AttributeView {
    /// This is an attribute without a namespace whose name is `name`.
    pub open spec fn is_plain(self, name: Seq<char>) -> bool {
        self.namespace.len() == 0 && self.name == name
    }
}

/// An element with its element children; text and comments are left out.
#[derive(Debug, PartialEq, Eq)]
pub struct Element {
    /// Value of the `id` attribute.
    pub id: Option<String>,
    /// The class names, one per entry.
    pub classes: Vec<String>,
    pub attributes: Vec<Attribute>,
    /// Child elements in document order.
    pub children: Vec<Element>,
}

pub struct ElementView {
    pub id: Option<Seq<char>>,
    pub classes: Seq<Seq<char>>,
    pub attributes: Seq<AttributeView>,
    pub children: Seq<ElementView>,
}

/// The mathematical value of an element: strings become character
/// sequences, vectors become sequences, all the way down.
pub open spec fn view_of(e: Element) -> ElementView
    decreases e,
{
    ElementView {
        id: match e.id {
            Some(id) => Some(id@),
            None => None,
        },
        classes: Seq::new(e.classes@.len(), |i: int| e.classes@[i]@),
        attributes: Seq::new(e.attributes@.len(), |i: int| e.attributes@[i]@),
        children: Seq::new(
            e.children@.len(),
            |i: int|
                if 0 <= i < e.children@.len() {
                    view_of(e.children@[i])
                } else {
                    arbitrary()
                },
        ),
    }
}

impl View for Element {
    type V = ElementView;

    open spec fn view(&self) -> ElementView {
        view_of(*self)
    }
}

/// The views of a sequence of elements.
pub open spec fn element_views(elements: Seq<Element>) -> Seq<ElementView> {
    elements.map_values(|e: Element| e@)
}

/// Value of the first plain attribute called `name`.
pub open spec fn attribute_value(attributes: Seq<AttributeView>, name: Seq<char>) -> Option<
    Seq<char>,
>
    decreases attributes.len(),
{
    if attributes.len() == 0 {
        None
    } else if attributes[0].is_plain(name) {
        Some(attributes[0].value)
    } else {
        attribute_value(attributes.drop_first(), name)
    }
}

/// Position of the first element of `elements` that carries `class`.
pub open spec fn position_with_class(elements: Seq<ElementView>, class: Seq<char>) -> Option<int>
    decreases elements.len(),
{
    if elements.len() == 0 {
        None
    } else if elements[0].has_class(class) {
        Some(0)
    } else {
        match position_with_class(elements.drop_first(), class) {
            Some(at) => Some(at + 1),
            None => None,
        }
    }
}

impl ElementView {
    /// `class` is one of the element's class names, compared exactly.
    pub open spec fn has_class(self, class: Seq<char>) -> bool {
        self.classes.contains(class)
    }

    /// Value of the attribute `name`, if the element has it.
    pub open spec fn attr(self, name: Seq<char>) -> Option<Seq<char>> {
        attribute_value(self.attributes, name)
    }

    /// The first child that carries `class`.
    pub open spec fn child_with_class(self, class: Seq<char>) -> Option<ElementView> {
        match position_with_class(self.children, class) {
            Some(at) => Some(self.children[at]),
            None => None,
        }
    }
}

/// `position_with_class` finds the leftmost element that has the class, and
/// finds nothing exactly when no element has it.
pub proof fn lemma_position_with_class(elements: Seq<ElementView>, class: Seq<char>)
    ensures
        match position_with_class(elements, class) {
            Some(at) => 0 <= at < elements.len() && elements[at].has_class(class) && forall|
                k: int,
            |
                0 <= k < at ==> !elements[k].has_class(class),
            None => forall|k: int| 0 <= k < elements.len() ==> !elements[k].has_class(class),
        },
    decreases elements.len(),
{
    if elements.len() > 0 && !elements[0].has_class(class) {
        let rest = elements.drop_first();
        lemma_position_with_class(rest, class);
        match position_with_class(rest, class) {
            Some(at) => {
                assert forall|k: int| 0 <= k < at + 1 implies !elements[k].has_class(class) by {
                    if k > 0 {
                        assert(elements[k] == rest[k - 1]);
                    }
                }
            },
            None => {
                assert forall|k: int| 0 <= k < elements.len() implies !elements[k].has_class(
                    class,
                ) by {
                    if k > 0 {
                        assert(elements[k] == rest[k - 1]);
                    }
                }
            },
        }
    }
}

/// An element at `at` that has the class, with none before it, is what
/// `position_with_class` finds.
pub proof fn lemma_position_with_class_is(elements: Seq<ElementView>, class: Seq<char>, at: int)
    requires
        0 <= at < elements.len(),
        elements[at].has_class(class),
        forall|k: int| 0 <= k < at ==> !elements[k].has_class(class),
    ensures
        position_with_class(elements, class) == Some(at),
{
    lemma_position_with_class(elements, class);
}

/// Among attributes of which none before `at` is a plain `name`, the lookup
/// of `name` is decided from `at` on.
pub proof fn lemma_attribute_value_skip(attributes: Seq<AttributeView>, name: Seq<char>, at: int)
    requires
        0 <= at <= attributes.len(),
        forall|k: int| 0 <= k < at ==> !attributes[k].is_plain(name),
    ensures
        attribute_value(attributes, name) == attribute_value(
            attributes.subrange(at, attributes.len() as int),
            name,
        ),
    decreases at,
{
    if at == 0 {
        assert(attributes.subrange(0, attributes.len() as int) =~= attributes);
    } else {
        let rest = attributes.drop_first();
        assert forall|k: int| 0 <= k < at - 1 implies !rest[k].is_plain(name) by {
            assert(rest[k] == attributes[k + 1]);
        }
        lemma_attribute_value_skip(rest, name, at - 1);
        assert(rest.subrange(at - 1, rest.len() as int) =~= attributes.subrange(
            at,
            attributes.len() as int,
        ));
    }
}

impl Attribute {
    /// An attribute without a namespace.
    pub fn plain(name: &str, value: &str) -> (attribute: Attribute)
        ensures
            attribute@ == (AttributeView {
                namespace: Seq::<char>::empty(),
                name: name@,
                value: value@,
            }),
    {
        Attribute { namespace: String::new(), name: name.to_owned(), value: value.to_owned() }
    }
}

impl Element {
    /// Whether `class` is one of the element's class names, compared exactly.
    pub fn has_class(&self, class: &str) -> (has: bool)
        ensures
            has == self@.has_class(class@),
    {
        let wanted = chars_of(class);
        let mut i: usize = 0;
        while i < self.classes.len()
            invariant
                i <= self.classes.len(),
                wanted@ == class@,
                forall|k: int| 0 <= k < i ==> self@.classes[k] != class@,
            decreases self.classes.len() - i,
        {
            let have = chars_of(self.classes[i].as_str());
            if same_chars(&have, &wanted) {
                assert(self@.classes[i as int] == class@);
                return true;
            }
            i += 1;
        }
        false
    }

    /// Value of the attribute `name`, if the element has it.
    pub fn attr(&self, name: &str) -> (value: Option<&String>)
        ensures
            match value {
                Some(value) => self@.attr(name@) == Some(value@),
                None => self@.attr(name@) is None,
            },
    {
        let wanted = chars_of(name);
        let mut i: usize = 0;
        while i < self.attributes.len()
            invariant
                i <= self.attributes.len(),
                wanted@ == name@,
                forall|k: int| 0 <= k < i ==> !self@.attributes[k].is_plain(name@),
            decreases self.attributes.len() - i,
        {
            let attribute = &self.attributes[i];
            if attribute.namespace.as_str().unicode_len() == 0 {
                let have = chars_of(attribute.name.as_str());
                if same_chars(&have, &wanted) {
                    proof {
                        lemma_attribute_value_skip(self@.attributes, name@, i as int);
                        let tail = self@.attributes.subrange(
                            i as int,
                            self@.attributes.len() as int,
                        );
                        assert(tail[0] == self@.attributes[i as int]);
                    }
                    return Some(&attribute.value);
                }
            }
            i += 1;
        }
        proof {
            lemma_attribute_value_skip(
                self@.attributes,
                name@,
                self@.attributes.len() as int,
            );
        }
        None
    }
}

/// An element as `scraper` hands it over: without its children, but with
/// the number of its ancestors. Elements listed in document order with
/// their depths say which is whose child: an element is the child of the
/// last element before it that is one level less deep, unless an element
/// less deep than that stands between them. An element two or more
/// levels below the last one before it has a parent that is no element,
/// such as the contents of a `template`, and is nobody's child.
#[derive(Clone, Debug, PartialEq, Eq)]
pub struct FlatElement {
    /// How many ancestors the element has in its document.
    pub depth: usize,
    pub id: Option<String>,
    pub classes: Vec<String>,
    pub attributes: Vec<Attribute>,
}

pub struct FlatElementView {
    pub depth: nat,
    pub id: Option<Seq<char>>,
    pub classes: Seq<Seq<char>>,
    pub attributes: Seq<AttributeView>,
}

impl View for FlatElement {
    type V = FlatElementView;

    open spec fn view(&self) -> FlatElementView {
        FlatElementView {
            depth: self.depth as nat,
            id: match self.id {
                Some(id) => Some(id@),
                None => None,
            },
            classes: Seq::new(self.classes@.len(), |i: int| self.classes@[i]@),
            attributes: Seq::new(self.attributes@.len(), |i: int| self.attributes@[i]@),
        }
    }
}

/// The views of a list of flat elements.
pub open spec fn flat_views(flat: Seq<FlatElement>) -> Seq<FlatElementView> {
    flat.map_values(|element: FlatElement| element@)
}

/// The views of a sequence of lists of flat elements.
pub open spec fn flat_list_views(lists: Seq<Vec<FlatElement>>) -> Seq<Seq<FlatElementView>> {
    lists.map_values(|list: Vec<FlatElement>| flat_views(list@))
}

/// The elements of depth `depth` from position `at` on, up to the first
/// element that is less deep, each with what is below it, and the
/// position of that first element. A deeper element that belongs to none
/// of them is passed over: its parent is no element, so it is no child of
/// any.
pub open spec fn siblings_from(flat: Seq<FlatElementView>, at: int, depth: nat) -> (
    Seq<ElementView>,
    int,
)
    decreases flat.len() - at, 1int,
{
    if at < 0 || at >= flat.len() || flat[at].depth < depth {
        (Seq::empty(), at)
    } else if flat[at].depth > depth {
        siblings_from(flat, at + 1, depth)
    } else {
        let (first, next) = element_at(flat, at);
        if next <= at || next > flat.len() {
            (seq![first], next)
        } else {
            let (rest, end) = siblings_from(flat, next, depth);
            (seq![first] + rest, end)
        }
    }
}

/// The element at position `at` with what is below it: its children are
/// the elements one level deeper that follow it, before the next element
/// that is no deeper than itself. With it comes the position of that next
/// element.
pub open spec fn element_at(flat: Seq<FlatElementView>, at: int) -> (ElementView, int)
    decreases flat.len() - at, 0int,
{
    if at < 0 || at >= flat.len() {
        (arbitrary(), at)
    } else {
        let (children, next) = siblings_from(flat, at + 1, flat[at].depth + 1);
        (
            ElementView {
                id: flat[at].id,
                classes: flat[at].classes,
                attributes: flat[at].attributes,
                children,
            },
            next,
        )
    }
}

/// The element that a list of flat elements begins with, with what is
/// below it. Nothing for an empty list.
pub open spec fn tree_of(flat: Seq<FlatElementView>) -> Option<ElementView> {
    if flat.len() == 0 {
        None
    } else {
        Some(element_at(flat, 0).0)
    }
}

/// The elements that the lists begin with, leaving out empty lists.
pub open spec fn trees_among(lists: Seq<Seq<FlatElementView>>) -> Seq<ElementView>
    decreases lists.len(),
{
    if lists.len() == 0 {
        Seq::empty()
    } else {
        let before = trees_among(lists.drop_last());
        match tree_of(lists.last()) {
            Some(tree) => before.push(tree),
            None => before,
        }
    }
}

/// What `scraper` selects from a document: it parses `document` as HTML,
/// parses `selector` as a CSS selector, and lists the matching elements in
/// document order, each as the flat list of itself and its descendants.
/// `None` stands for a selector that does not parse.
pub uninterp spec fn selection_of(document: Seq<char>, selector: Seq<char>) -> Option<
    Seq<Seq<FlatElementView>>,
>;

/// The elements of `document` that match `selector`, in document order.
pub open spec fn selected_elements(document: Seq<char>, selector: Seq<char>) -> Seq<ElementView> {
    match selection_of(document, selector) {
        Some(lists) => trees_among(lists),
        None => Seq::empty(),
    }
}

/// Runs `scraper::Html::parse_document`, `scraper::Selector::parse` and
/// `Html::select`. Each match is listed with `ElementRef::descendent_elements`,
/// which yields the element and then its descendants in document order; of
/// each are kept the number of its `ancestors`, its `id`, its `classes` and
/// its `attrs`. The result is a function of the two strings alone; the
/// contract gives it a name and claims nothing else of it.
#[verifier::external_body]
fn select_flat(document: &str, selector: &str) -> (found: Option<Vec<Vec<FlatElement>>>)
    ensures
        match found {
            Some(lists) => selection_of(document@, selector@) == Some(flat_list_views(lists@)),
            None => selection_of(document@, selector@) is None,
        },
{
    let html = scraper::Html::parse_document(document);
    let selector = scraper::Selector::parse(selector).ok()?;
    Some(html.select(&selector).map(|found| found.descendent_elements().map(|node| FlatElement {
        depth: node.ancestors().count(),
        id: node.value().id().map(str::to_string),
        classes: node.value().classes().map(str::to_string).collect(),
        attributes: node.value().attrs.iter().map(|(key, text)| Attribute {
            namespace: key.ns.to_string(),
            name: key.local.to_string(),
            value: text.to_string(),
        }).collect(),
    }).collect()).collect())
}

/// What is below an element ends after the element and within the list,
/// and so do siblings.
pub proof fn lemma_element_extent(flat: Seq<FlatElementView>, at: int, depth: nat)
    requires
        0 <= at <= flat.len(),
    ensures
        at < flat.len() ==> at < element_at(flat, at).1 <= flat.len(),
        at <= siblings_from(flat, at, depth).1 <= flat.len(),
    decreases flat.len() - at, 1int,
{
    if at < flat.len() {
        lemma_element_below(flat, at);
        let next = element_at(flat, at).1;
        if flat[at].depth == depth {
            lemma_element_extent(flat, next, depth);
        } else if flat[at].depth > depth {
            lemma_element_extent(flat, at + 1, depth);
        }
    }
}

/// What is below an element ends after the element and within the list.
pub proof fn lemma_element_below(flat: Seq<FlatElementView>, at: int)
    requires
        0 <= at < flat.len(),
    ensures
        at < element_at(flat, at).1 <= flat.len(),
    decreases flat.len() - at, 0int,
{
    lemma_element_extent(flat, at + 1, flat[at].depth + 1);
}

/// A copy of an optional string.
fn copy_id(id: &Option<String>) -> (copy: Option<String>)
    ensures
        match copy {
            Some(copy) => *id matches Some(id) && copy@ == id@,
            None => *id is None,
        },
{
    match id {
        Some(id) => Some(id.clone()),
        None => None,
    }
}

/// A copy of a list of strings.
fn copy_classes(classes: &Vec<String>) -> (copy: Vec<String>)
    ensures
        copy@.len() == classes@.len(),
        forall|k: int| 0 <= k < copy@.len() ==> copy@[k]@ == classes@[k]@,
{
    let mut copy: Vec<String> = Vec::new();
    let mut i: usize = 0;
    while i < classes.len()
        invariant
            i <= classes.len(),
            copy@.len() == i,
            forall|k: int| 0 <= k < i ==> copy@[k]@ == classes@[k]@,
        decreases classes.len() - i,
    {
        copy.push(classes[i].clone());
        i += 1;
    }
    copy
}

/// A copy of a list of attributes.
fn copy_attributes(attributes: &Vec<Attribute>) -> (copy: Vec<Attribute>)
    ensures
        copy@.len() == attributes@.len(),
        forall|k: int| 0 <= k < copy@.len() ==> copy@[k]@ == attributes@[k]@,
{
    let mut copy: Vec<Attribute> = Vec::new();
    let mut i: usize = 0;
    while i < attributes.len()
        invariant
            i <= attributes.len(),
            copy@.len() == i,
            forall|k: int| 0 <= k < i ==> copy@[k]@ == attributes@[k]@,
        decreases attributes.len() - i,
    {
        let attribute = &attributes[i];
        copy.push(
            Attribute {
                namespace: attribute.namespace.clone(),
                name: attribute.name.clone(),
                value: attribute.value.clone(),
            },
        );
        i += 1;
    }
    copy
}

/// The element at position `at` with what is below it, and the position
/// after that.
pub fn build_element(flat: &Vec<FlatElement>, at: usize) -> (built: (Element, usize))
    requires
        at < flat.len(),
    ensures
        built.0@ == element_at(flat_views(flat@), at as int).0,
        built.1 == element_at(flat_views(flat@), at as int).1,
        at < built.1 <= flat.len(),
    decreases flat.len() - at, 0int,
{
    let ghost views = flat_views(flat@);
    proof {
        lemma_element_below(views, at as int);
    }
    let head = &flat[at];
    assert(views[at as int] == head@);
    let (children, next) = if head.depth == usize::MAX {
        let none: Vec<Element> = Vec::new();
        proof {
            assert(at + 1 < flat.len() ==> views[at + 1] == flat@[at + 1]@);
            assert(siblings_from(views, at + 1, head@.depth + 1).0 =~= element_views(none@));
        }
        (none, at + 1)
    } else {
        build_siblings(flat, at + 1, head.depth + 1)
    };
    let element = Element {
        id: copy_id(&head.id),
        classes: copy_classes(&head.classes),
        attributes: copy_attributes(&head.attributes),
        children,
    };
    proof {
        let wanted = element_at(views, at as int).0;
        assert(element@.classes =~= wanted.classes);
        assert(element@.attributes =~= wanted.attributes);
        assert(element@.children =~= element_views(children@));
    }
    (element, next)
}

/// The elements of depth `depth` from position `at` on, up to the first
/// element that is less deep, each with what is below it, and the
/// position of that first element.
pub fn build_siblings(flat: &Vec<FlatElement>, at: usize, depth: usize) -> (built: (
    Vec<Element>,
    usize,
))
    requires
        at <= flat.len(),
    ensures
        element_views(built.0@) == siblings_from(flat_views(flat@), at as int, depth as nat).0,
        built.1 == siblings_from(flat_views(flat@), at as int, depth as nat).1,
        at <= built.1 <= flat.len(),
    decreases flat.len() - at, 1int,
{
    let ghost views = flat_views(flat@);
    let ghost whole = siblings_from(views, at as int, depth as nat);
    let mut siblings: Vec<Element> = Vec::new();
    let mut cur: usize = at;
    proof {
        assert(element_views(siblings@) + whole.0 =~= whole.0);
    }
    while cur < flat.len() && flat[cur].depth >= depth
        invariant
            at <= cur <= flat.len(),
            views == flat_views(flat@),
            whole == siblings_from(views, at as int, depth as nat),
            whole.0 == element_views(siblings@) + siblings_from(views, cur as int, depth as nat).0,
            whole.1 == siblings_from(views, cur as int, depth as nat).1,
        decreases flat.len() - cur,
    {
        assert(views[cur as int] == flat@[cur as int]@);
        if flat[cur].depth > depth {
            cur = cur + 1;
        } else {
            let ghost before = element_views(siblings@);
            let ghost rest = siblings_from(views, cur as int, depth as nat);
            let (element, next) = build_element(flat, cur);
            siblings.push(element);
            proof {
                let after = siblings_from(views, next as int, depth as nat);
                assert(rest.0 == seq![element@] + after.0);
                assert(element_views(siblings@) =~= before.push(element@));
                assert(before + (seq![element@] + after.0) =~= before.push(element@) + after.0);
            }
            cur = next;
        }
    }
    proof {
        if cur < flat.len() {
            assert(views[cur as int] == flat@[cur as int]@);
        }
        assert(siblings_from(views, cur as int, depth as nat).0 =~= Seq::<ElementView>::empty());
        assert(element_views(siblings@) + Seq::<ElementView>::empty() =~= element_views(siblings@));
    }
    (siblings, cur)
}

/// The element that `flat` begins with, with what is below it.
pub fn build_tree(flat: &Vec<FlatElement>) -> (tree: Option<Element>)
    ensures
        match tree {
            Some(tree) => tree_of(flat_views(flat@)) == Some(tree@),
            None => tree_of(flat_views(flat@)) is None,
        },
{
    if flat.len() == 0 {
        None
    } else {
        let (tree, _) = build_element(flat, 0);
        Some(tree)
    }
}

/// The elements of `document` that match `selector`, in document order;
/// none where the selector does not parse.
pub fn select_elements(document: &str, selector: &str) -> (found: Vec<Element>)
    ensures
        element_views(found@) == selected_elements(document@, selector@),
{
    let mut found: Vec<Element> = Vec::new();
    match select_flat(document, selector) {
        None => {
            assert(element_views(found@) =~= Seq::<ElementView>::empty());
        },
        Some(lists) => {
            let ghost all = flat_list_views(lists@);
            let mut i: usize = 0;
            assert(element_views(found@) =~= trees_among(all.take(0)));
            while i < lists.len()
                invariant
                    i <= lists.len(),
                    all == flat_list_views(lists@),
                    element_views(found@) == trees_among(all.take(i as int)),
                decreases lists.len() - i,
            {
                assert(all.take(i + 1).drop_last() == all.take(i as int));
                assert(all[i as int] == flat_views(lists@[i as int]@));
                match build_tree(&lists[i]) {
                    Some(tree) => {
                        let ghost before = element_views(found@);
                        found.push(tree);
                        assert(element_views(found@) =~= before.push(tree@));
                    },
                    None => {},
                }
                i += 1;
            }
            assert(all.take(lists@.len() as int) == all);
        },
    }
    found
}

} // verus!
