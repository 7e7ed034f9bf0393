//! Validated URLs, parsed and serialized by the `url` crate.
use vstd::prelude::*;

verus! {

/// The serialization of the URL that the `url` crate parses from `s`, or
/// `None` where it refuses `s`.
pub uninterp spec fn parsed_url(s: Seq<char>) -> Option<Seq<char>>;

/// The serialization of the URL parsed from `base` with `pairs` appended,
/// form-urlencoded, to its query; `None` where `base` does not parse.
pub uninterp spec fn url_with_query(base: Seq<char>, pairs: Seq<(Seq<char>, Seq<char>)>) -> Option<Seq<char>>;

pub open spec fn pairs_view(pairs: Seq<(String, String)>) -> Seq<(Seq<char>, Seq<char>)> {
    pairs.map_values(|p: (String, String)| (p.0@, p.1@))
}

/// Relies on `url::Url::parse`, for whether `s` is a URL, and on
/// `String::from(Url)`, for its serialization.
#[verifier::external_body]
fn parse_url(s: &str) -> (r: Option<String>)
    ensures
        match r {
            Some(t) => parsed_url(s@) == Some(t@),
            None => parsed_url(s@) is None,
        },
{
    url::Url::parse(s).ok().map(String::from)
}

/// Relies on `url::Url::parse_with_params`: it parses `base` as
/// `url::Url::parse` does and, where that succeeds, appends `pairs` to the
/// query.
#[verifier::external_body]
fn parse_with_params(base: &str, pairs: &Vec<(String, String)>) -> (r: Option<String>)
    ensures
        match r {
            Some(t) => url_with_query(base@, pairs_view(pairs@)) == Some(t@),
            None => url_with_query(base@, pairs_view(pairs@)) is None,
        },
        r is Some <==> parsed_url(base@) is Some,
{
    url::Url::parse_with_params(base, pairs.iter()).ok().map(String::from)
}

/// An absolute URL, held as its serialization.
#[derive(Debug, PartialEq, Eq)]
pub struct WebUrl {
    serialization: String,
}

impl View for WebUrl {
    type V = Seq<char>;

    closed spec fn view(&self) -> Seq<char> {
        self.serialization@
    }
}

impl Clone for WebUrl {
    fn clone(&self) -> (r: WebUrl)
        ensures
            r@ == self@,
    {
        WebUrl { serialization: self.serialization.clone() }
    }
}

impl WebUrl {
    /// Parses `s`; `None` where `s` is not an absolute URL.
    pub fn parse(s: &str) -> (r: Option<WebUrl>)
        ensures
            match r {
                Some(u) => parsed_url(s@) == Some(u@),
                None => parsed_url(s@) is None,
            },
    {
        match parse_url(s) {
            Some(t) => Some(WebUrl { serialization: t }),
            None => None,
        }
    }

    /// Parses `base` and appends `pairs` to its query.
    pub fn with_query(base: &str, pairs: &Vec<(String, String)>) -> (r: Option<WebUrl>)
        ensures
            match r {
                Some(u) => url_with_query(base@, pairs_view(pairs@)) == Some(u@),
                None => url_with_query(base@, pairs_view(pairs@)) is None,
            },
            r is Some <==> parsed_url(base@) is Some,
    {
        match parse_with_params(base, pairs) {
            Some(t) => Some(WebUrl { serialization: t }),
            None => None,
        }
    }

    pub fn as_str(&self) -> (r: &str)
        ensures
            r@ == self@,
    {
        self.serialization.as_str()
    }
}

} // verus!
