use vstd::prelude::*;
use crate::routes::RouteTable;
use crate::target::{parse_target, parsed_target, uri_parses, TargetView};

verus! {

/// What `url::Url::parse` accepts, as a predicate on the text.
pub uninterp spec fn url_accepts(s: Seq<char>) -> bool;

/// Settings of the listening side.
#[derive(Debug)]
pub struct ProxyConfig {
    /// The address to listen on, as `host:port`.
    pub address: String,
}

/// The configuration as it is written: the listener settings and the raw
/// route entries, each a request path and the text of a backend URI.
#[derive(Debug)]
pub struct TomlConfig {
    pub proxy: ProxyConfig,
    pub routes: Vec<(String, String)>,
}

/// The validated configuration: the listener settings and the route table.
#[derive(Debug)]
pub struct Config {
    pub proxy: ProxyConfig,
    pub routes: RouteTable,
}

/// Why a configuration was refused.
#[derive(Debug)]
pub enum ConfigError {
    /// The URI of the route for `path` is a valid URL but cannot be used as a
    /// request target.
    InvalidUri { path: String, uri: String },
}

/// The entry is dropped: its text is not a valid URL.
pub open spec fn skipped(uri: Seq<char>) -> bool {
    !url_accepts(uri)
}

/// The entry refuses the whole configuration: its text is a valid URL that
/// the request-target parser does not accept.
pub open spec fn refused(uri: Seq<char>) -> bool {
    url_accepts(uri) && !uri_parses(uri)
}

/// The route table that the entries give, a later entry for a path taking
/// the place of an earlier one.
pub open spec fn routes_from(entries: Seq<(String, String)>) -> Map<Seq<char>, TargetView>
    decreases entries.len(),
{
    if entries.len() == 0 {
        Map::empty()
    } else {
        let before = routes_from(entries.drop_last());
        let e = entries.last();
        if skipped(e.1@) {
            before
        } else {
            before.insert(e.0@, parsed_target(e.1@))
        }
    }
}

/// Relies on `url::Url::parse`: whether it returns `Ok` for the text.
#[verifier::external_body]
fn url_is_valid(uri: &String) -> (r: bool)
    ensures
        r == url_accepts(uri@),
{
    match url::Url::parse(uri) {
        Ok(_) => true,
        Err(_) => false,
    }
}

impl Config {
    /// Whether `uri` is a valid URL; entries that are not are left out of
    /// the route table.
    pub fn is_valid(uri: &String) -> (r: bool)
        ensures
            r == !skipped(uri@),
    {
        url_is_valid(uri)
    }

    /// Builds the route table from the raw entries.
    ///
    /// Entries whose URI is not a valid URL are left out. If a valid URL is
    /// not accepted as a request target, the first such entry is reported and
    /// no configuration is built.
    pub fn parse_uris(toml_config: TomlConfig) -> (r: Result<Config, ConfigError>)
        ensures
            r is Ok <==> forall|i: int|
                0 <= i < toml_config.routes@.len() ==> !refused(
                    #[trigger] toml_config.routes@[i].1@,
                ),
            r matches Ok(c) ==> c.routes.wf() && c.routes@ == routes_from(toml_config.routes@)
                && c.proxy == toml_config.proxy,
            r matches Err(ConfigError::InvalidUri { path, uri }) ==> exists|i: int|
                0 <= i < toml_config.routes@.len() && (#[trigger] toml_config.routes@[i]).0@ == path@
                    && toml_config.routes@[i].1@ == uri@ && refused(uri@) && forall|j: int|
                    0 <= j < i ==> !refused(#[trigger] toml_config.routes@[j].1@),
    {
        let n = toml_config.routes.len();
        let mut table = RouteTable::new();
        let mut i: usize = 0;
        while i < n
            invariant
                n == toml_config.routes@.len(),
                i <= n,
                table.wf(),
                table@ == routes_from(toml_config.routes@.take(i as int)),
                forall|j: int| 0 <= j < i ==> !refused(#[trigger] toml_config.routes@[j].1@),
            decreases n - i,
        {
            let path = &toml_config.routes[i].0;
            let uri = &toml_config.routes[i].1;
            proof {
                assert(toml_config.routes@.take(i + 1).drop_last() =~= toml_config.routes@.take(i as int));
            }
            if Config::is_valid(uri) {
                match parse_target(uri.as_str()) {
                    Ok(t) => {
                        table.insert(path.clone(), t);
                    },
                    Err(_) => {
                        proof {
                            let w = i as int;
                            assert(refused(toml_config.routes@[w].1@));
                            assert(toml_config.routes@[w].0@ == path@);
                        }
                        return Err(ConfigError::InvalidUri { path: path.clone(), uri: uri.clone() });
                    },
                }
            }
            i = i + 1;
        }
        proof {
            assert(toml_config.routes@.take(n as int) =~= toml_config.routes@);
        }
        Ok(Config { proxy: toml_config.proxy, routes: table })
    }
}

} // verus!
