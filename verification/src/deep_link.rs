//! Deep links: the parts of an address that the router reads.
use vstd::prelude::*;
use vstd::string::*;
use crate::models::text_of;

verus! {

/// The parts of a deep-link address that the router reads.
#[derive(Clone, Debug, PartialEq, Eq)]
pub struct DeepLink {
    pub path: String,
    /// The text after `?`, if the address has a query.
    pub query: Option<String>,
    /// The name-value pairs of the query, decoded, in order.
    pub pairs: Vec<(String, String)>,
}

pub type Pairs = Seq<(Seq<char>, Seq<char>)>;

pub struct DeepLinkView {
    pub path: Seq<char>,
    pub query: Option<Seq<char>>,
    pub pairs: Pairs,
}

pub open spec fn pairs_view(v: Seq<(String, String)>) -> Pairs {
    Seq::new(v.len(), |i: int| (v[i].0@, v[i].1@))
}

impl View for DeepLink {
    type V = DeepLinkView;

    open spec fn view(&self) -> DeepLinkView {
        DeepLinkView {
            path: self.path@,
            query: text_of(self.query),
            pairs: pairs_view(self.pairs@),
        }
    }
}

/// The path that the `url` crate reads from an address; `None` where the
/// text is no absolute address.
pub uninterp spec fn url_path(text: Seq<char>) -> Option<Seq<char>>;

/// The query that the `url` crate reads from an address (`Some(None)` where
/// it has none); `None` where the text is no absolute address.
pub uninterp spec fn url_query(text: Seq<char>) -> Option<Option<Seq<char>>>;

/// The decoded name-value pairs that the `url` crate reads from the query of
/// an address; `None` where the text is no absolute address.
pub uninterp spec fn url_query_pairs(text: Seq<char>) -> Option<Pairs>;

/// Parses the text with `url::Url::parse` and calls `Url::path`. The contract
/// only names the result: it depends on the text alone.
#[verifier::external_body]
pub(crate) fn parse_path(text: &str) -> (r: Option<String>)
    ensures
        text_of(r) == url_path(text@),
{
    url::Url::parse(text).ok().map(|u| u.path().to_string())
}

pub open spec fn query_view(q: Option<Option<String>>) -> Option<Option<Seq<char>>> {
    match q {
        Some(inner) => Some(text_of(inner)),
        None => None,
    }
}

/// Parses the text with `url::Url::parse` and calls `Url::query`. The
/// contract only names the result: it depends on the text alone.
#[verifier::external_body]
pub(crate) fn parse_query(text: &str) -> (r: Option<Option<String>>)
    ensures
        query_view(r) == url_query(text@),
{
    url::Url::parse(text).ok().map(|u| u.query().map(|q| q.to_string()))
}

pub open spec fn pairs_option_view(p: Option<Vec<(String, String)>>) -> Option<Pairs> {
    match p {
        Some(v) => Some(pairs_view(v@)),
        None => None,
    }
}

/// Parses the text with `url::Url::parse` and collects `Url::query_pairs`.
/// The contract only names the result: it depends on the text alone.
#[verifier::external_body]
pub(crate) fn parse_query_pairs(text: &str) -> (r: Option<Vec<(String, String)>>)
    ensures
        pairs_option_view(r) == url_query_pairs(text@),
{
    url::Url::parse(text).ok().map(
        |u| u.query_pairs().map(|(k, v)| (k.into_owned(), v.into_owned())).collect(),
    )
}

/// The deep link that an address spells out.
pub open spec fn deep_link_spec(text: Seq<char>) -> Option<DeepLinkView> {
    match (url_path(text), url_query(text), url_query_pairs(text)) {
        (Some(path), Some(query), Some(pairs)) => Some(DeepLinkView { path, query, pairs }),
        _ => None,
    }
}

pub open spec fn deep_link_option_view(o: Option<DeepLink>) -> Option<DeepLinkView> {
    match o {
        Some(d) => Some(d@),
        None => None,
    }
}

impl DeepLink {
    /// Puts together what was read from an address.
    pub fn from_parts(
        path: Option<String>,
        query: Option<Option<String>>,
        pairs: Option<Vec<(String, String)>>,
    ) -> (r: Option<DeepLink>)
        ensures
            deep_link_option_view(r) == match (text_of(path), query_view(query), pairs_option_view(
                pairs,
            )) {
                (Some(path), Some(query), Some(pairs)) => Some(DeepLinkView { path, query, pairs }),
                _ => None,
            },
    {
        match (path, query, pairs) {
            (Some(path), Some(query), Some(pairs)) => Some(DeepLink { path, query, pairs }),
            _ => None,
        }
    }

    /// Reads an address; `None` where it is no absolute address.
    pub fn parse(text: &str) -> (r: Option<DeepLink>)
        ensures
            deep_link_option_view(r) == deep_link_spec(text@),
    {
        Self::from_parts(parse_path(text), parse_query(text), parse_query_pairs(text))
    }
}

} // verus!
