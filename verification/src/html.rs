//! Elements of an HTML page, as plain values, and the selections that the
//! `scraper` crate makes on a page.
use vstd::prelude::*;

verus! {

/// An element that a selector matched: the text nodes under it, in document
/// order, and the value of the one attribute that was asked for.
pub struct Element {
    pub texts: Vec<String>,
    pub attr: Option<String>,
}

/// The characters of an `Element`.
pub struct ElementView {
    pub texts: Seq<Seq<char>>,
    pub attr: Option<Seq<char>>,
}

pub open spec fn opt_string_view(s: Option<String>) -> Option<Seq<char>> {
    match s {
        Some(s) => Some(s@),
        None => None,
    }
}

impl View for Element {
    type V = ElementView;

    open spec fn view(&self) -> ElementView {
        ElementView {
            texts: self.texts@.map_values(|t: String| t@),
            attr: opt_string_view(self.attr),
        }
    }
}

/// The views of a sequence of elements.
pub open spec fn elements_view(els: Seq<Element>) -> Seq<ElementView> {
    els.map_values(|e: Element| e@)
}

/// The views of a sequence of element pairs.
pub open spec fn element_pairs_view(pairs: Seq<(Vec<Element>, Vec<Element>)>) -> Seq<
    (Seq<ElementView>, Seq<ElementView>),
> {
    pairs.map_values(|p: (Vec<Element>, Vec<Element>)| (elements_view(p.0@), elements_view(p.1@)))
}

/// The selectors that this crate hands to `scraper`. Each is a chain of type
/// and class selectors joined by child combinators, which
/// `scraper::Selector::parse` accepts.
pub open spec fn known_selector(s: Seq<char>) -> bool {
    ||| s == "div.itemCard__item"@
    ||| s == ".g-price__outer > span.g-price"@
    ||| s == ".itemCard__itemName > a"@
    ||| s == "ul.slides > li > a"@
}

/// What `scraper` gives for the elements of the document `html` that match
/// `selector`, each with its text nodes and its attribute `attr`; `None`
/// where `selector` does not parse.
pub uninterp spec fn selection(html: Seq<char>, selector: Seq<char>, attr: Seq<char>) -> Option<
    Seq<ElementView>,
>;

/// What `scraper` gives for each element of the document `html` that matches
/// `outer`: the elements under it that match `first`, and those that match
/// `second`, each with its text nodes and its attribute `attr`; `None` where
/// one of the selectors does not parse.
pub uninterp spec fn paired_selection(
    html: Seq<char>,
    outer: Seq<char>,
    first: Seq<char>,
    second: Seq<char>,
    attr: Seq<char>,
) -> Option<Seq<(Seq<ElementView>, Seq<ElementView>)>>;

/// Parses `html` as a document with `scraper::Html::parse_document`, and
/// selects in it with `scraper::Html::select` the elements that match
/// `selector` (parsed by `scraper::Selector::parse`), taking of each its
/// `text()` nodes and its `attr(attr)`. The claims: the result is what
/// `selection` names for these arguments (the parse is deterministic and
/// reads nothing else), and there is one for each of the crate's own
/// selectors, which parse.
#[verifier::external_body]
pub(crate) fn select_elements(html: &str, selector: &str, attr: &str) -> (r: Option<Vec<Element>>)
    ensures
        match r {
            Some(els) => selection(html@, selector@, attr@) == Some(elements_view(els@)),
            None => selection(html@, selector@, attr@) is None,
        },
        known_selector(selector@) ==> r is Some,
{
    let selector = scraper::Selector::parse(selector).ok()?;
    let document = scraper::Html::parse_document(html);
    Some(
        document.select(&selector).map(|e| Element {
            texts: e.text().map(String::from).collect(),
            attr: e.attr(attr).map(String::from),
        }).collect(),
    )
}

/// Parses `html` with `scraper::Html::parse_document`, selects with
/// `scraper::Html::select` the elements that match `outer`, and under each
/// of them, with `scraper::ElementRef::select`, those that match `first` and
/// those that match `second`, taking of each its `text()` nodes and its
/// `attr(attr)`. The claims: the result is what `paired_selection` names
/// for these arguments, and there is one when all three selectors are the
/// crate's own, which parse.
#[verifier::external_body]
pub(crate) fn select_pairs(html: &str, outer: &str, first: &str, second: &str, attr: &str) -> (r: Option<
    Vec<(Vec<Element>, Vec<Element>)>,
>)
    ensures
        match r {
            Some(pairs) => paired_selection(html@, outer@, first@, second@, attr@) == Some(
                element_pairs_view(pairs@),
            ),
            None => paired_selection(html@, outer@, first@, second@, attr@) is None,
        },
        known_selector(outer@) && known_selector(first@) && known_selector(second@) ==> r is Some,
{
    let outer = scraper::Selector::parse(outer).ok()?;
    let first = scraper::Selector::parse(first).ok()?;
    let second = scraper::Selector::parse(second).ok()?;
    let document = scraper::Html::parse_document(html);
    let plain = |e: scraper::ElementRef| Element {
        texts: e.text().map(String::from).collect(),
        attr: e.attr(attr).map(String::from),
    };
    Some(document.select(&outer).map(|c| (c.select(&first).map(plain).collect(), c.select(&second).map(plain).collect())).collect())
}

} // verus!
