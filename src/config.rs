use vstd::prelude::*;
use vstd::string::StringExecFns;

use crate::models::texts;

verus! {

pub struct Database {
    pub url: String,
}

pub struct HttpSerer {
    pub enabled: bool,
    pub host: String,
    pub port: u16,
}

pub struct Server {
    pub http: HttpSerer,
    pub cors: Cors,
    pub frontend: Frontend,
    pub auth: Auth,
}

pub struct Cors {
    pub allowed_origin: String,
}

/// Settings of the directory that resolves author identifiers to aliases.
pub struct DidResolver {
    pub enabled: bool,
    pub base_url: String,
    pub timeout_seconds: u64,
    pub user_agent: String,
}

/// Settings of the firehose connection.
pub struct Jetstream {
    pub enabled: bool,
    pub base_url: String,
    pub compress: bool,
    pub wanted_collections: Vec<String>,
    pub reconnect_interval: u64,
    pub did_resolver: DidResolver,
}

pub struct Gemini {
    pub enabled: bool,
    pub base_url: String,
    pub timeout_seconds: u64,
    pub user_agent: String,
}

pub struct Frontend {
    pub enabled: bool,
}

pub struct Auth {
    pub enabled: bool,
    pub username: Option<String>,
    pub password_hash: Option<String>,
    pub cookie_expiry_minutes: Option<u64>,
    pub cookie_domain: Option<String>,
    pub cookie_secure: Option<bool>,
}

pub struct Config {
    pub database: Database,
    pub server: Server,
    pub jetstream: Jetstream,
    pub gemini: Gemini,
}

/// `wantedCollections=c` for each collection, joined by `&`.
pub open spec fn collections_query(cols: Seq<Seq<char>>) -> Seq<char>
    decreases cols.len(),
{
    if cols.len() == 0 {
        Seq::empty()
    } else if cols.len() == 1 {
        "wantedCollections="@ + cols[0]
    } else {
        collections_query(cols.drop_last()) + "&"@ + "wantedCollections="@ + cols.last()
    }
}

/// The text of a flag in a query string.
pub open spec fn flag_text(b: bool) -> Seq<char> {
    if b {
        "true"@
    } else {
        "false"@
    }
}

/// The firehose endpoint with its compression flag and wanted collections.
pub open spec fn endpoint_url(base: Seq<char>, compress: bool, cols: Seq<Seq<char>>) -> Seq<char> {
    base + "?compress="@ + flag_text(compress) + "&"@ + collections_query(cols)
}

impl Jetstream {
    /// The endpoint to connect to: `{base}?compress={flag}&wantedCollections=..`.
    pub fn url(&self) -> (r: String)
        ensures
            r@ == endpoint_url(self.base_url@, self.compress, texts(self.wanted_collections@)),
    {
        let mut url = self.base_url.clone();
        url.append("?compress=");
        if self.compress {
            url.append("true");
        } else {
            url.append("false");
        }
        url.append("&");
        let ghost head = url@;
        let cols = &self.wanted_collections;
        let mut i: usize = 0;
        while i < cols.len()
            invariant
                i <= cols@.len(),
                url@ == head + collections_query(texts(cols@.subrange(0, i as int))),
            decreases cols@.len() - i,
        {
            let ghost prefix = texts(cols@.subrange(0, i + 1));
            assert(prefix.drop_last() =~= texts(cols@.subrange(0, i as int)));
            assert(prefix.last() == cols@[i as int]@);
            if i > 0 {
                url.append("&");
            }
            url.append("wantedCollections=");
            url.append(cols[i].as_str());
            proof {
                if i == 0 {
                    assert(prefix =~= seq![cols@[0]@]);
                    assert(texts(cols@.subrange(0, 0)) =~= Seq::empty());
                    assert(collections_query(Seq::empty()) =~= Seq::empty());
                }
            }
            assert(url@ =~= head + collections_query(prefix));
            i = i + 1;
        }
        assert(cols@.subrange(0, cols@.len() as int) =~= cols@);
        url
    }
}

} // verus!
