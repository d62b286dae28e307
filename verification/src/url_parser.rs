//! Addresses of the PeerTube web interface: a video, a channel, a search or an instance.
use vstd::prelude::*;
use crate::text::{chars_of, push_range, str_starts_with, str_eq};
use crate::utils::{find_char, index_of_char};

verus! {

broadcast use vstd::string::group_string_axioms;

/// What an address points to.
#[derive(Debug, Clone, PartialEq)]
pub enum UrlType {
    /// A video, with its UUID.
    Video(String),
    /// A channel, with its handle.
    Channel(String),
    /// A search, with its text.
    Search(String),
    /// The front page of an instance.
    LandingPage,
}

/// The value of a [`UrlType`].
pub enum UrlTypeView {
    Video(Seq<char>),
    Channel(Seq<char>),
    Search(Seq<char>),
    LandingPage,
}

impl View for UrlType {
    type V = UrlTypeView;

    open spec fn view(&self) -> UrlTypeView {
        match self {
            UrlType::Video(s) => UrlTypeView::Video(s@),
            UrlType::Channel(s) => UrlTypeView::Channel(s@),
            UrlType::Search(s) => UrlTypeView::Search(s@),
            UrlType::LandingPage => UrlTypeView::LandingPage,
        }
    }
}

/// An address of the web interface: the instance, and what it points to.
#[derive(Debug, Clone, PartialEq)]
pub struct ParsedUrl {
    pub instance: String,
    pub url_data: UrlType,
}

/// The pieces of a parsed address that matter here.
pub struct UrlParts {
    /// The domain, when the host is one.
    pub domain: Option<String>,
    /// The segments of the path, when the address can have one.
    pub path_segments: Option<Vec<String>>,
    /// The decoded pairs of the query, in order.
    pub query_pairs: Vec<(String, String)>,
}

/// `Url::parse` accepts the text.
pub uninterp spec fn url_parses(input: Seq<char>) -> bool;

/// `Url::domain` of the parsed text.
pub uninterp spec fn url_domain(input: Seq<char>) -> Option<Seq<char>>;

/// `Url::path_segments` of the parsed text.
pub uninterp spec fn url_path_segments(input: Seq<char>) -> Option<Seq<Seq<char>>>;

/// `Url::query_pairs` of the parsed text, decoded.
pub uninterp spec fn url_query_pairs(input: Seq<char>) -> Seq<(Seq<char>, Seq<char>)>;

/// The value of an optional string.
pub open spec fn opt_view(o: Option<String>) -> Option<Seq<char>> {
    match o {
        Some(s) => Some(s@),
        None => None,
    }
}

/// The values of a vector of strings.
pub open spec fn seq_view(v: Seq<String>) -> Seq<Seq<char>> {
    v.map_values(|s: String| s@)
}

/// The values of a vector of pairs of strings.
pub open spec fn pairs_view(v: Seq<(String, String)>) -> Seq<(Seq<char>, Seq<char>)> {
    v.map_values(|p: (String, String)| (p.0@, p.1@))
}

/// The values of the parts of an address.
pub open spec fn parts_view(p: UrlParts) -> (Option<Seq<char>>, Option<Seq<Seq<char>>>, Seq<(Seq<char>, Seq<char>)>) {
    (
        opt_view(p.domain),
        match p.path_segments {
            Some(v) => Some(seq_view(v@)),
            None => None,
        },
        pairs_view(p.query_pairs@),
    )
}

/// `url::Url::parse`, then `Url::domain`, `Url::path_segments` and
/// `Url::query_pairs` of the result, copied into plain strings. `None` when
/// the text is no address; else each piece is the result named for it.
#[verifier::external_body]
pub(crate) fn parse_url(input: &str) -> (r: Option<UrlParts>)
    ensures
        (r is Some) == url_parses(input@),
        (match r {
            Some(p) => parts_view(p) == (url_domain(input@), url_path_segments(input@), url_query_pairs(input@)),
            None => true,
        }),
{
    let u = url::Url::parse(input).ok()?;
    Some(UrlParts {
        domain: u.domain().map(|d| d.to_string()),
        path_segments: u.path_segments().map(|it| it.map(|s| s.to_string()).collect()),
        query_pairs: u.query_pairs().map(|(k, v)| (k.into_owned(), v.into_owned())).collect(),
    })
}

/// The segment `i` of a path, if it has one.
pub open spec fn segment(segs: Seq<Seq<char>>, i: int) -> Option<Seq<char>> {
    if 0 <= i < segs.len() {
        Some(segs[i])
    } else {
        None
    }
}

/// The value of the first pair named `search`, if any.
pub open spec fn search_value(pairs: Seq<(Seq<char>, Seq<char>)>) -> Option<Seq<char>>
    decreases pairs.len(),
{
    if pairs.len() == 0 {
        None
    } else if pairs[0].0 == "search"@ {
        Some(pairs[0].1)
    } else {
        search_value(pairs.drop_first())
    }
}

/// What an address points to, from its path segments and its query.
pub open spec fn url_type_of(segs: Seq<Seq<char>>, pairs: Seq<(Seq<char>, Seq<char>)>) -> UrlTypeView {
    if segment(segs, 0) == Some("videos"@) && segment(segs, 1) == Some("watch"@) && segs.len() >= 3 {
        UrlTypeView::Video(segs[2])
    } else if segment(segs, 0) == Some("video-channels"@) && segs.len() >= 2 && segment(segs, 2) == Some("videos"@) {
        UrlTypeView::Channel(segs[1])
    } else if segment(segs, 0) == Some("search"@) {
        match search_value(pairs) {
            Some(v) => UrlTypeView::Search(v),
            None => UrlTypeView::LandingPage,
        }
    } else {
        UrlTypeView::LandingPage
    }
}

/// What `from_url` gives, from the text and the parts of the parsed address:
/// only `http://` and `https://` addresses with a domain are taken, and the
/// instance is the domain (up to a space) after `https://`.
pub open spec fn from_parts_spec(
    input: Seq<char>,
    parts: Option<(Option<Seq<char>>, Option<Seq<Seq<char>>>, Seq<(Seq<char>, Seq<char>)>)>,
) -> Option<(Seq<char>, UrlTypeView)> {
    if !"http://"@.is_prefix_of(input) && !"https://"@.is_prefix_of(input) {
        None
    } else {
        match parts {
            None => None,
            Some((domain, segs, pairs)) => match (domain, segs) {
                (Some(d), Some(s)) => Some(
                    ("https://"@ + d.take(index_of_char(d, ' ')), url_type_of(s, pairs)),
                ),
                _ => None,
            },
        }
    }
}

/// What `from_url` gives for the text `i`.
pub open spec fn url_outcome(i: Seq<char>) -> Option<(Seq<char>, UrlTypeView)> {
    from_parts_spec(i, if url_parses(i) {
        Some((url_domain(i), url_path_segments(i), url_query_pairs(i)))
    } else {
        None
    })
}

/// The value of a parsed address.
pub open spec fn parsed_view(p: ParsedUrl) -> (Seq<char>, UrlTypeView) {
    (p.instance@, p.url_data@)
}

impl ParsedUrl {
    /// Reads the address `i` from the parts that parsing it gave.
    pub fn from_parts(i: &str, parts: Option<UrlParts>) -> (r: Option<ParsedUrl>)
        ensures
            (match r {
                Some(p) => from_parts_spec(i@, match parts {
                    Some(q) => Some(parts_view(q)),
                    None => None,
                }) == Some(parsed_view(p)),
                None => from_parts_spec(i@, match parts {
                    Some(q) => Some(parts_view(q)),
                    None => None,
                }) is None,
            }),
    {
        if !str_starts_with(i, "http://") && !str_starts_with(i, "https://") {
            return None;
        }
        let parts = match parts {
            Some(p) => p,
            None => {
                return None;
            },
        };
        let UrlParts { domain, path_segments, query_pairs } = parts;
        let segs = match path_segments {
            Some(s) => s,
            None => {
                return None;
            },
        };
        let d = match domain {
            Some(d) => d,
            None => {
                return None;
            },
        };
        let dv = chars_of(d.as_str());
        assert(dv@.skip(0) =~= dv@);
        let end = match find_char(&dv, 0, ' ') {
            Some(e) => e,
            None => dv.len(),
        };
        let mut instance = String::new();
        instance.append("https://");
        push_range(&mut instance, &dv, 0, end);
        assert(dv@.subrange(0, end as int) =~= d@.take(index_of_char(d@, ' ')));
        let url_data = Self::url_type(&segs, &query_pairs);
        Some(ParsedUrl { instance, url_data })
    }

    /// What the path segments and the query point to.
    fn url_type(segs: &Vec<String>, pairs: &Vec<(String, String)>) -> (r: UrlType)
        ensures
            r@ == url_type_of(seq_view(segs@), pairs_view(pairs@)),
    {
        let n = segs.len();
        let ghost sv = seq_view(segs@);
        proof {
            reveal_strlit("videos");
            reveal_strlit("watch");
            reveal_strlit("video-channels");
            reveal_strlit("search");
        }
        if n >= 1 && str_eq(segs[0].as_str(), "videos") && n >= 2 && str_eq(segs[1].as_str(), "watch") && n >= 3 {
            assert(sv[2] == segs@[2]@);
            return UrlType::Video(segs[2].clone());
        }
        assert(!(segment(sv, 0) == Some("videos"@) && segment(sv, 1) == Some("watch"@) && sv.len() >= 3)) by {
            if n >= 3 {
                assert(sv[0] == segs@[0]@);
                assert(sv[1] == segs@[1]@);
            }
        }
        if n >= 1 && str_eq(segs[0].as_str(), "video-channels") && n >= 3 && str_eq(segs[2].as_str(), "videos") {
            assert(sv[1] == segs@[1]@);
            return UrlType::Channel(segs[1].clone());
        }
        assert(!(segment(sv, 0) == Some("video-channels"@) && sv.len() >= 2 && segment(sv, 2) == Some("videos"@))) by {
            if n >= 3 {
                assert(sv[0] == segs@[0]@);
                assert(sv[2] == segs@[2]@);
            }
        }
        if n >= 1 && str_eq(segs[0].as_str(), "search") {
            return match Self::search_pair(pairs) {
                Some(v) => UrlType::Search(v),
                None => UrlType::LandingPage,
            };
        }
        assert(!(segment(sv, 0) == Some("search"@))) by {
            if n >= 1 {
                assert(sv[0] == segs@[0]@);
            }
        }
        UrlType::LandingPage
    }

    /// The value of the first query pair named `search`.
    fn search_pair(pairs: &Vec<(String, String)>) -> (r: Option<String>)
        ensures
            opt_view(r) == search_value(pairs_view(pairs@)),
    {
        let ghost pv = pairs_view(pairs@);
        let mut i: usize = 0;
        assert(pv.skip(0) =~= pv);
        while i < pairs.len()
            invariant
                i <= pairs@.len(),
                pv == pairs_view(pairs@),
                search_value(pv) == search_value(pv.skip(i as int)),
            decreases pairs@.len() - i,
        {
            assert(pv.skip(i as int)[0] == (pairs@[i as int].0@, pairs@[i as int].1@));
            if str_eq(pairs[i].0.as_str(), "search") {
                return Some(pairs[i].1.clone());
            }
            assert(pv.skip(i as int).drop_first() =~= pv.skip(i + 1));
            i += 1;
        }
        None
    }

    /// Reads a web-interface address: the instance, and the video, channel or
    /// search it points to; `None` for text that is no `http(s)://` address
    /// with a domain.
    pub fn from_url(i: &str) -> (r: Option<ParsedUrl>)
        ensures
            (match r {
                Some(p) => url_outcome(i@) == Some(parsed_view(p)),
                None => url_outcome(i@) is None,
            }),
    {
        if !str_starts_with(i, "http://") && !str_starts_with(i, "https://") {
            return None;
        }
        let parts = parse_url(i);
        Self::from_parts(i, parts)
    }
}

} // verus!
