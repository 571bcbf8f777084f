use vstd::prelude::*;

verus! {

/// The path of the URL that the text `s` parses to, or `None` where it is
/// not a well-formed URL.
pub uninterp spec fn parsed_url_path(s: Seq<char>) -> Option<Seq<char>>;

/// Relies on `url::Url::parse`, which decides whether the text is a
/// well-formed URL, and on `Url::path`, the path of the URL it parsed.
#[verifier::external_body]
fn url_path(s: &str) -> (r: Option<String>)
    ensures
        r.is_some() == parsed_url_path(s@).is_some(),
        r matches Some(p) ==> parsed_url_path(s@) == Some(p@),
{
    url::Url::parse(s).ok().map(|u| u.path().to_string())
}

/// The text is a well-formed URL.
pub open spec fn is_url(s: Seq<char>) -> bool {
    parsed_url_path(s).is_some()
}

/// The text is a well-formed URL whose path names a collection: it holds
/// the word "playlist".
pub open spec fn is_collection_url(s: Seq<char>) -> bool {
    &&& parsed_url_path(s).is_some()
    &&& crate::text::contains_seq(parsed_url_path(s).unwrap(), "playlist"@)
}

/// Classifies `s`: `None` where it is not a well-formed URL, else whether
/// it addresses a collection rather than a single item.
pub fn classify_url(s: &str) -> (r: Option<bool>)
    ensures
        r.is_some() == is_url(s@),
        r matches Some(c) ==> c == is_collection_url(s@),
{
    match url_path(s) {
        None => None,
        Some(p) => Some(crate::text::contains_str(p.as_str(), "playlist")),
    }
}

} // verus!
