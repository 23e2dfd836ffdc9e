//! What CSS selectors pick out of an HTML document, as plain text.
use vstd::prelude::*;

verus! {

/// The text of every element of `document` that `selector` matches, in
/// document order; `None` when `selector` does not parse.
pub uninterp spec fn selected_texts(document: Seq<char>, selector: Seq<char>) -> Option<Seq<Seq<char>>>;

/// The value of attribute `attr` on every element of `document` that
/// `selector` matches, in document order; `None` when `selector` does not
/// parse.
pub uninterp spec fn selected_attrs(document: Seq<char>, selector: Seq<char>, attr: Seq<char>) -> Option<
    Seq<Option<Seq<char>>>,
>;

/// The outer HTML of every element of `document` that `selector` matches,
/// in document order; `None` when `selector` does not parse.
pub uninterp spec fn selected_html(document: Seq<char>, selector: Seq<char>) -> Option<Seq<Seq<char>>>;

pub open spec fn texts(v: Seq<String>) -> Seq<Seq<char>> {
    v.map_values(|s: String| s@)
}

pub open spec fn opt_text(o: Option<String>) -> Option<Seq<char>> {
    match o {
        Some(s) => Some(s@),
        None => None,
    }
}

/// Relies on scraper's `Html::parse_document`, `Selector::parse`,
/// `Html::select` and `ElementRef::text`.
#[verifier::external_body]
fn select_texts(document: &str, selector: &str) -> (r: Option<Vec<String>>)
    ensures
        match r {
            Some(v) => selected_texts(document@, selector@) == Some(texts(v@)),
            None => selected_texts(document@, selector@) is None,
        },
{
    let html = scraper::Html::parse_document(document);
    let selector = scraper::Selector::parse(selector).ok()?;
    Some(html.select(&selector).map(|e| e.text().collect::<String>()).collect())
}

/// Relies on scraper's `Html::parse_document`, `Selector::parse`,
/// `Html::select` and `ElementRef::attr`.
#[verifier::external_body]
fn select_attrs(document: &str, selector: &str, attr: &str) -> (r: Option<Vec<Option<String>>>)
    ensures
        match r {
            Some(v) => selected_attrs(document@, selector@, attr@) == Some(
                v@.map_values(|o: Option<String>| opt_text(o)),
            ),
            None => selected_attrs(document@, selector@, attr@) is None,
        },
{
    let html = scraper::Html::parse_document(document);
    let selector = scraper::Selector::parse(selector).ok()?;
    Some(html.select(&selector).map(|e| e.attr(attr).map(|a| a.to_owned())).collect())
}

/// Relies on scraper's `Html::parse_document`, `Selector::parse`,
/// `Html::select` and `ElementRef::html`.
#[verifier::external_body]
fn select_html(document: &str, selector: &str) -> (r: Option<Vec<String>>)
    ensures
        match r {
            Some(v) => selected_html(document@, selector@) == Some(texts(v@)),
            None => selected_html(document@, selector@) is None,
        },
{
    let html = scraper::Html::parse_document(document);
    let selector = scraper::Selector::parse(selector).ok()?;
    Some(html.select(&selector).map(|e| e.html()).collect())
}

/// The text of the first element that `selector` matches.
pub open spec fn first_text(document: Seq<char>, selector: Seq<char>) -> Option<Seq<char>> {
    match selected_texts(document, selector) {
        Some(s) => if s.len() > 0 {
            Some(s[0])
        } else {
            None
        },
        None => None,
    }
}

/// The text of the last element that `selector` matches.
pub open spec fn last_text(document: Seq<char>, selector: Seq<char>) -> Option<Seq<char>> {
    match selected_texts(document, selector) {
        Some(s) => if s.len() > 0 {
            Some(s.last())
        } else {
            None
        },
        None => None,
    }
}

/// The texts of all elements that `selector` matches; none when it does not
/// parse.
pub open spec fn all_texts(document: Seq<char>, selector: Seq<char>) -> Seq<Seq<char>> {
    match selected_texts(document, selector) {
        Some(s) => s,
        None => Seq::empty(),
    }
}

/// Whether `selector` matches an element at all, and if so the value of
/// `attr` on the first one.
pub open spec fn first_attr(document: Seq<char>, selector: Seq<char>, attr: Seq<char>) -> Option<
    Option<Seq<char>>,
> {
    match selected_attrs(document, selector, attr) {
        Some(s) => if s.len() > 0 {
            Some(s[0])
        } else {
            None
        },
        None => None,
    }
}

/// The outer HTML of all elements that `selector` matches; none when it
/// does not parse.
pub open spec fn all_html(document: Seq<char>, selector: Seq<char>) -> Seq<Seq<char>> {
    match selected_html(document, selector) {
        Some(s) => s,
        None => Seq::empty(),
    }
}

pub fn first_selected_text(document: &str, selector: &str) -> (r: Option<String>)
    ensures
        opt_text(r) == first_text(document@, selector@),
{
    match select_texts(document, selector) {
        Some(mut v) => {
            if v.len() > 0 {
                Some(v.swap_remove(0))
            } else {
                None
            }
        },
        None => None,
    }
}

pub fn last_selected_text(document: &str, selector: &str) -> (r: Option<String>)
    ensures
        opt_text(r) == last_text(document@, selector@),
{
    match select_texts(document, selector) {
        Some(mut v) => v.pop(),
        None => None,
    }
}

pub fn all_selected_texts(document: &str, selector: &str) -> (r: Vec<String>)
    ensures
        texts(r@) == all_texts(document@, selector@),
{
    match select_texts(document, selector) {
        Some(v) => v,
        None => Vec::new(),
    }
}

pub fn first_selected_attr(document: &str, selector: &str, attr: &str) -> (r: Option<Option<String>>)
    ensures
        match r {
            Some(a) => first_attr(document@, selector@, attr@) == Some(opt_text(a)),
            None => first_attr(document@, selector@, attr@) is None,
        },
{
    match select_attrs(document, selector, attr) {
        Some(mut v) => {
            if v.len() > 0 {
                Some(v.swap_remove(0))
            } else {
                None
            }
        },
        None => None,
    }
}

pub fn all_selected_html(document: &str, selector: &str) -> (r: Vec<String>)
    ensures
        texts(r@) == all_html(document@, selector@),
{
    match select_html(document, selector) {
        Some(v) => v,
        None => Vec::new(),
    }
}

} // verus!
