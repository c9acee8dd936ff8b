//! Queries on HTML documents: the first element that a CSS selector matches,
//! and the attributes and text of that element.

use vstd::prelude::*;
use crate::error::ScrapeError;
use crate::text::text_eq;

verus! {

/// An element of a parsed document, as far as the library reads it: its
/// attributes in the order the parser lists them, and the text of all its
/// descendants run together.
#[derive(Debug)]
pub struct Element {
    pub attrs: Vec<(String, String)>,
    pub text: String,
}

/// The view of an [`Element`].
pub struct ElementView {
    pub attrs: Seq<(Seq<char>, Seq<char>)>,
    pub text: Seq<char>,
}

impl View for Element {
    type V = ElementView;

    open spec fn view(&self) -> ElementView {
        ElementView {
            attrs: self.attrs@.map_values(|p: (String, String)| (p.0@, p.1@)),
            text: self.text@,
        }
    }
}

/// Whether the CSS selector parser accepts `selector`.
pub uninterp spec fn selector_accepted(selector: Seq<char>) -> bool;

/// The first element of the HTML document `document`, in the order in which
/// the parser created the nodes, that the selector `selector` matches.
pub uninterp spec fn first_match(document: Seq<char>, selector: Seq<char>) -> Option<ElementView>;

/// Relies on scraper's `Selector::parse`, which accepts the selector text or
/// refuses it, and on `Html::parse_document` followed by `select(..).next()`,
/// which yields the first matching element in the order in which the parser
/// created the nodes. The element's attributes and descendant text are
/// copied out.
#[verifier::external_body]
fn select_first(document: &str, selector: &str) -> (r: Option<Option<Element>>)
    ensures
        r is Some == selector_accepted(selector@),
        r matches Some(Some(e)) ==> first_match(document@, selector@) == Some(e@),
        r matches Some(None) ==> first_match(document@, selector@) is None,
{
    let selector = scraper::Selector::parse(selector).ok()?;
    let html = scraper::Html::parse_document(document);
    match html.select(&selector).next() {
        Some(e) => Some(Some(Element {
            attrs: e.value().attrs().map(|(k, v)| (k.to_string(), v.to_string())).collect(),
            text: e.text().collect(),
        })),
        None => Some(None),
    }
}

/// What a query for `selector` on `document` yields.
pub open spec fn find_spec(document: Seq<char>, selector: Seq<char>) -> Result<ElementView, ScrapeError> {
    if !selector_accepted(selector) {
        Err(ScrapeError::InvalidSelector)
    } else {
        match first_match(document, selector) {
            Some(e) => Ok(e),
            None => Err(ScrapeError::NotFound),
        }
    }
}

/// The outcome of a query from what the parser reported: `None` for a
/// selector it refused, `Some(None)` where nothing matched.
pub fn query_outcome(selected: Option<Option<Element>>) -> (r: Result<Element, ScrapeError>)
    ensures
        selected is None ==> r == Err::<Element, ScrapeError>(ScrapeError::InvalidSelector),
        selected matches Some(None) ==> r == Err::<Element, ScrapeError>(ScrapeError::NotFound),
        selected matches Some(Some(e)) ==> r == Ok::<Element, ScrapeError>(e),
{
    match selected {
        None => Err(ScrapeError::InvalidSelector),
        Some(None) => Err(ScrapeError::NotFound),
        Some(Some(e)) => Ok(e),
    }
}

/// The first element of `document` that `selector` matches. A selector that
/// does not parse is `InvalidSelector`; one that matches nothing is
/// `NotFound`.
pub fn find(document: &str, selector: &str) -> (r: Result<Element, ScrapeError>)
    ensures
        r matches Ok(e) ==> find_spec(document@, selector@) == Ok::<ElementView, ScrapeError>(e@),
        r matches Err(err) ==> find_spec(document@, selector@) == Err::<ElementView, ScrapeError>(err),
{
    query_outcome(select_first(document, selector))
}

/// `i` is the first attribute of `attrs` named `name`.
pub open spec fn is_first_attr(attrs: Seq<(Seq<char>, Seq<char>)>, name: Seq<char>, i: int) -> bool {
    &&& 0 <= i < attrs.len()
    &&& attrs[i].0 == name
    &&& forall|j: int| 0 <= j < i ==> attrs[j].0 != name
}

/// The value of the first attribute named `name`.
pub open spec fn attr_value(attrs: Seq<(Seq<char>, Seq<char>)>, name: Seq<char>) -> Option<Seq<char>> {
    if exists|i: int| is_first_attr(attrs, name, i) {
        Some(attrs[choose|i: int| is_first_attr(attrs, name, i)].1)
    } else {
        None
    }
}

/// The value of the attribute `name` of `element`, or `AttributeMissing`.
pub fn read_attribute(element: &Element, name: &str) -> (r: Result<String, ScrapeError>)
    ensures
        attr_value(element@.attrs, name@) matches Some(v) ==> (r matches Ok(s) && s@ == v),
        attr_value(element@.attrs, name@) is None ==> r == Err::<String, ScrapeError>(
            ScrapeError::AttributeMissing,
        ),
{
    let ghost attrs = element@.attrs;
    let mut i: usize = 0;
    while i < element.attrs.len()
        invariant
            attrs == element@.attrs,
            attrs.len() == element.attrs@.len(),
            i <= element.attrs.len(),
            forall|j: int| 0 <= j < i ==> attrs[j].0 != name@,
        decreases element.attrs.len() - i,
    {
        assert(attrs[i as int] == (element.attrs@[i as int].0@, element.attrs@[i as int].1@));
        if text_eq(element.attrs[i].0.as_str(), name) {
            assert(is_first_attr(attrs, name@, i as int));
            assert forall|k: int| is_first_attr(attrs, name@, k) implies k == i by {}
            return Ok(element.attrs[i].1.clone());
        }
        i = i + 1;
    }
    Err(ScrapeError::AttributeMissing)
}

/// The text of `element`, or `NoText` where it holds none.
pub fn read_text(element: &Element) -> (r: Result<String, ScrapeError>)
    ensures
        element@.text.len() == 0 ==> r == Err::<String, ScrapeError>(ScrapeError::NoText),
        element@.text.len() > 0 ==> (r matches Ok(s) && s@ == element@.text),
{
    if element.text.as_str().unicode_len() == 0 {
        Err(ScrapeError::NoText)
    } else {
        Ok(element.text.clone())
    }
}

} // verus!
