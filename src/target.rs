use vstd::prelude::*;

verus! {

/// What the parser of `hyper::Uri` accepts, as a predicate on the text.
pub uninterp spec fn uri_parses(s: Seq<char>) -> bool;

/// The scheme that `hyper::Uri::scheme_str` reports for the parsed text.
pub uninterp spec fn uri_scheme(s: Seq<char>) -> Option<Seq<char>>;

/// The authority that `hyper::Uri::authority` reports for the parsed text.
pub uninterp spec fn uri_authority(s: Seq<char>) -> Option<Seq<char>>;

/// The path that `hyper::Uri::path` reports for the parsed text.
pub uninterp spec fn uri_path(s: Seq<char>) -> Seq<char>;

/// The query that `hyper::Uri::query` reports for the parsed text.
pub uninterp spec fn uri_query(s: Seq<char>) -> Option<Seq<char>>;

/// The mathematical value of a backend target: its URI components.
pub struct TargetView {
    pub scheme: Option<Seq<char>>,
    pub authority: Option<Seq<char>>,
    pub path: Seq<char>,
    pub query: Option<Seq<char>>,
}

/// The components of the text `s` as the URI parser splits them.
pub open spec fn parsed_target(s: Seq<char>) -> TargetView {
    TargetView {
        scheme: uri_scheme(s),
        authority: uri_authority(s),
        path: uri_path(s),
        query: uri_query(s),
    }
}

pub open spec fn opt_view(o: Option<String>) -> Option<Seq<char>> {
    match o {
        Some(s) => Some(s@),
        None => None,
    }
}

/// A backend target: the upstream address a route forwards to, held as the
/// components of its URI.
#[derive(Debug)]
pub struct BackendTarget {
    pub scheme: Option<String>,
    pub authority: Option<String>,
    pub path: String,
    pub query: Option<String>,
}

impl View for BackendTarget {
    type V = TargetView;

    open spec fn view(&self) -> TargetView {
        TargetView {
            scheme: opt_view(self.scheme),
            authority: opt_view(self.authority),
            path: self.path@,
            query: opt_view(self.query),
        }
    }
}

pub(crate) fn clone_opt_string(o: &Option<String>) -> (r: Option<String>)
    ensures
        r == *o,
{
    match o {
        Some(s) => Some(s.clone()),
        None => None,
    }
}

impl BackendTarget {
    /// A copy of the target, equal to it field by field.
    pub fn duplicate(&self) -> (r: BackendTarget)
        ensures
            r == *self,
    {
        BackendTarget {
            scheme: clone_opt_string(&self.scheme),
            authority: clone_opt_string(&self.authority),
            path: self.path.clone(),
            query: clone_opt_string(&self.query),
        }
    }
}

/// Relies on `FromStr for hyper::Uri` to parse `s`, and on the accessors
/// `scheme_str`, `authority`, `path` and `query` of the parsed value, which
/// the result copies out as plain strings.
#[verifier::external_body]
pub(crate) fn parse_target(s: &str) -> (r: Result<BackendTarget, hyper::http::uri::InvalidUri>)
    ensures
        r is Ok <==> uri_parses(s@),
        r matches Ok(t) ==> opt_view(t.scheme) == uri_scheme(s@),
        r matches Ok(t) ==> opt_view(t.authority) == uri_authority(s@),
        r matches Ok(t) ==> t.path@ == uri_path(s@),
        r matches Ok(t) ==> opt_view(t.query) == uri_query(s@),
{
    s.parse::<hyper::Uri>().map(|u| BackendTarget {
        scheme: u.scheme_str().map(|x| x.to_string()),
        authority: u.authority().map(|a| a.as_str().to_string()),
        path: u.path().to_string(),
        query: u.query().map(|q| q.to_string()),
    })
}

#[verifier::external_type_specification]
#[verifier::external_body]
pub struct ExInvalidUri(hyper::http::uri::InvalidUri);

} // verus!
