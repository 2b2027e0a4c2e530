//! Applying a structural selection rule to markup: find the first element
//! matching a CSS-like selector and read one declared attribute from it.

use vstd::prelude::*;
use crate::error::ExtractionError;

verus! {

/// The token (or error kind) that applying `selector` to `markup` and
/// reading `attribute` from the first match yields. Parsing and selection
/// are deterministic, so the outcome is a function of the three strings
/// alone; its full definition would amount to restating an HTML parser,
/// so it is left as a name that the trusted wrapper below pins down.
pub uninterp spec fn extract_of(
    markup: Seq<char>,
    selector: Seq<char>,
    attribute: Seq<char>,
) -> Result<Seq<char>, ExtractionError>;

/// Relies on scraper: `Html::parse_document`, `Selector::parse`,
/// `Html::select` and `ElementRef::attr`. Parsing never fails hard and
/// selection walks the parsed tree in document order, so the whole chain
/// is deterministic in `markup`, `selector` and `attribute`. A rule that
/// is not a well-formed selector matches no element.
#[verifier::external_body]
fn select_first_attr(markup: &str, selector: &str, attribute: &str) -> (r: Result<
    String,
    ExtractionError,
>)
    ensures
        match r {
            Ok(s) => extract_of(markup@, selector@, attribute@) == Ok::<
                Seq<char>,
                ExtractionError,
            >(s@),
            Err(e) => extract_of(markup@, selector@, attribute@) == Err::<
                Seq<char>,
                ExtractionError,
            >(e),
        },
{
    let document = scraper::Html::parse_document(markup);
    let parsed = match scraper::Selector::parse(selector) {
        Ok(parsed) => parsed,
        Err(_) => return Err(ExtractionError::NoMatch),
    };
    match document.select(&parsed).next() {
        None => Err(ExtractionError::NoMatch),
        Some(element) => match element.attr(attribute) {
            None => Err(ExtractionError::MissingAttribute),
            Some(value) => Ok(value.to_string()),
        },
    }
}

/// Apply the selection rule to `markup` and return the identifying token:
/// the value of `attribute` on the first element matching `selector`.
/// `NoMatch` when no element satisfies the rule, `MissingAttribute` when
/// the first matching element lacks the attribute.
pub fn extract(markup: &str, selector: &str, attribute: &str) -> (r: Result<
    String,
    ExtractionError,
>)
    ensures
        match r {
            Ok(s) => extract_of(markup@, selector@, attribute@) == Ok::<
                Seq<char>,
                ExtractionError,
            >(s@),
            Err(e) => extract_of(markup@, selector@, attribute@) == Err::<
                Seq<char>,
                ExtractionError,
            >(e),
        },
{
    select_first_attr(markup, selector, attribute)
}

/// Extractor purity: identical markup, rule and attribute always yield an
/// identical token or an identical error kind, however often the
/// extraction is repeated.
pub proof fn lemma_extract_deterministic(
    m1: Seq<char>,
    s1: Seq<char>,
    a1: Seq<char>,
    m2: Seq<char>,
    s2: Seq<char>,
    a2: Seq<char>,
)
    requires
        m1 == m2,
        s1 == s2,
        a1 == a2,
    ensures
        extract_of(m1, s1, a1) == extract_of(m2, s2, a2),
{
}

} // verus!
