//! Queries on HTML documents by CSS selectors.
//!
//! Parsing and matching are the work of the `scraper` crate. Each function
//! here takes the document and the selectors as text and gives back the
//! text of what matched, so that the extraction rules can be stated over
//! plain values.

use vstd::prelude::*;

verus! {

/// Whether a text is a CSS selector group that `scraper` accepts.
pub uninterp spec fn selector_is_valid(selector: Seq<char>) -> bool;

/// The text content of each element of the document that matches the
/// selector, in the order in which `Html::select` yields them.
pub uninterp spec fn texts_in_document(html: Seq<char>, selector: Seq<char>) -> Seq<Seq<char>>;

/// The text content of each element below the root element that matches
/// the selector, in the order in which `ElementRef::select` yields them.
pub uninterp spec fn texts_under_root(html: Seq<char>, selector: Seq<char>) -> Seq<Seq<char>>;

/// For each element of the document that matches the selector, the value
/// of the attribute where the element has it.
pub uninterp spec fn attributes_in_document(
    html: Seq<char>,
    selector: Seq<char>,
    attribute: Seq<char>,
) -> Seq<Option<Seq<char>>>;

/// For each element of the document that matches `outer`, the text content
/// of each of its descendants that matches `inner`.
pub uninterp spec fn texts_in_each(html: Seq<char>, outer: Seq<char>, inner: Seq<char>) -> Seq<
    Seq<Seq<char>>,
>;

/// For each element of the document that matches `outer`, and each of its
/// descendants that matches `middle`, the text content of each descendant
/// of that one that matches `inner`.
pub uninterp spec fn texts_in_each_of_each(
    html: Seq<char>,
    outer: Seq<char>,
    middle: Seq<char>,
    inner: Seq<char>,
) -> Seq<Seq<Seq<Seq<char>>>>;

/// `Selector::parse`, `Html::parse_document` and `Html::select`, with
/// `ElementRef::text` on each match. The result is `None` exactly when the
/// selector is not accepted; otherwise it is the texts of the matches, a
/// function of document and selector alone.
#[verifier::external_body]
pub(crate) fn select_texts(html: &str, selector: &str) -> (texts: Option<Vec<String>>)
    ensures
        texts is Some <==> selector_is_valid(selector@),
        texts matches Some(found) ==> found.deep_view() == texts_in_document(html@, selector@),
{
    let selector = scraper::Selector::parse(selector).ok()?;
    let document = scraper::Html::parse_document(html);
    Some(document.select(&selector).map(|element| element.text().collect::<String>()).collect())
}

/// `Html::root_element` and `ElementRef::select` on a parsed document, with
/// `ElementRef::text` on each match. A parsed document always has a root
/// element. The result is `None` exactly when the selector is not accepted.
#[verifier::external_body]
pub(crate) fn select_texts_under_root(html: &str, selector: &str) -> (texts: Option<Vec<String>>)
    ensures
        texts is Some <==> selector_is_valid(selector@),
        texts matches Some(found) ==> found.deep_view() == texts_under_root(html@, selector@),
{
    let selector = scraper::Selector::parse(selector).ok()?;
    let document = scraper::Html::parse_document(html);
    let root = document.root_element();
    Some(root.select(&selector).map(|element| element.text().collect::<String>()).collect())
}

/// `Html::select` on a parsed document, with `ElementRef::attr` on each
/// match. The result is `None` exactly when the selector is not accepted.
#[verifier::external_body]
pub(crate) fn select_attributes(html: &str, selector: &str, attribute: &str) -> (values: Option<
    Vec<Option<String>>,
>)
    ensures
        values is Some <==> selector_is_valid(selector@),
        values matches Some(found) ==> found.deep_view() == attributes_in_document(
            html@,
            selector@,
            attribute@,
        ),
{
    let selector = scraper::Selector::parse(selector).ok()?;
    let document = scraper::Html::parse_document(html);
    Some(
        document.select(&selector).map(
            |element| element.attr(attribute).map(|value| value.to_string()),
        ).collect(),
    )
}

/// `Html::select` for `outer`, `ElementRef::select` for `inner` in each
/// match, and `ElementRef::text` on each inner match. The result is `None`
/// exactly when one of the selectors is not accepted.
#[verifier::external_body]
pub(crate) fn select_texts_in_each(html: &str, outer: &str, inner: &str) -> (texts: Option<
    Vec<Vec<String>>,
>)
    ensures
        texts is Some <==> (selector_is_valid(outer@) && selector_is_valid(inner@)),
        texts matches Some(found) ==> found.deep_view() == texts_in_each(html@, outer@, inner@),
{
    let outer = scraper::Selector::parse(outer).ok()?;
    let inner = scraper::Selector::parse(inner).ok()?;
    let document = scraper::Html::parse_document(html);
    Some(
        document.select(&outer).map(
            |element| element.select(&inner).map(|found| found.text().collect::<String>()).collect(),
        ).collect(),
    )
}

/// `Html::select` for `outer`, `ElementRef::select` for `middle` in each
/// match and for `inner` in each of those, and `ElementRef::text` on each
/// innermost match. The result is `None` exactly when one of the selectors
/// is not accepted.
#[verifier::external_body]
pub(crate) fn select_texts_in_each_of_each(
    html: &str,
    outer: &str,
    middle: &str,
    inner: &str,
) -> (texts: Option<Vec<Vec<Vec<String>>>>)
    ensures
        texts is Some <==> (selector_is_valid(outer@) && selector_is_valid(middle@)
            && selector_is_valid(inner@)),
        texts matches Some(found) ==> found.deep_view() == texts_in_each_of_each(
            html@,
            outer@,
            middle@,
            inner@,
        ),
{
    let outer = scraper::Selector::parse(outer).ok()?;
    let middle = scraper::Selector::parse(middle).ok()?;
    let inner = scraper::Selector::parse(inner).ok()?;
    let document = scraper::Html::parse_document(html);
    Some(
        document.select(&outer).map(
            |a| a.select(&middle).map(
                |b| b.select(&inner).map(|c| c.text().collect::<String>()).collect(),
            ).collect(),
        ).collect(),
    )
}

} // verus!
