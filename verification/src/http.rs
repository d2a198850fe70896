//! What the HTTP client decides before it sends anything: the methods of its
//! ratelimited routes, how pages are asked for, and how a webhook URL is read.
use vstd::prelude::*;

use crate::decimal::decimal_u64;
use core::str::FromStr;

use crate::snowflake::Snowflake;
use crate::text::{split_once, str_eq, strip_prefix, utf8_len};

verus! {

/// An method used for ratelimiting special routes.
///
/// This is needed because [`reqwest`]'s [`reqwest::Method`] does not derive Copy.
#[derive(Clone, Copy, Debug, Eq, Hash, PartialEq, Structural)]
pub enum LightMethod {
    /// Indicates that a route is for the `DELETE` method only.
    Delete,
    /// Indicates that a route is for the `GET` method only.
    Get,
    /// Indicates that a route is for the `PATCH` method only.
    Patch,
    /// Indicates that a route is for the `POST` method only.
    Post,
    /// Indicates that a route is for the `PUT` method only.
    Put,
}

/// The method tokens that `http` knows without allocating (a subset of them:
/// those that a [`LightMethod`] stands for).
pub open spec fn standard_method_token(token: Seq<char>) -> bool {
    ||| token == "DELETE"@
    ||| token == "GET"@
    ||| token == "PATCH"@
    ||| token == "POST"@
    ||| token == "PUT"@
}

/// The `reqwest::Method` whose token is `token`.
pub uninterp spec fn method_named(token: Seq<char>) -> reqwest::Method;

impl LightMethod {
    /// The method's token as it is sent on the wire.
    pub open spec fn token(self) -> Seq<char> {
        match self {
            LightMethod::Delete => "DELETE"@,
            LightMethod::Get => "GET"@,
            LightMethod::Patch => "PATCH"@,
            LightMethod::Post => "POST"@,
            LightMethod::Put => "PUT"@,
        }
    }

    fn token_str(self) -> (s: &'static str)
        ensures
            s@ == self.token(),
    {
        match self {
            LightMethod::Delete => "DELETE",
            LightMethod::Get => "GET",
            LightMethod::Patch => "PATCH",
            LightMethod::Post => "POST",
            LightMethod::Put => "PUT",
        }
    }

    /// The full `reqwest` method of the same name.
    #[must_use]
    pub fn reqwest_method(self) -> (m: reqwest::Method)
        ensures
            m == method_named(self.token()),
            forall|other: LightMethod| other != self ==> m != #[trigger] method_named(other.token()),
    {
        proof {
            reveal_strlit("DELETE");
            reveal_strlit("GET");
            reveal_strlit("PATCH");
            reveal_strlit("POST");
            reveal_strlit("PUT");
            assert forall|a: LightMethod, b: LightMethod| a != b implies #[trigger] a.token()
                != #[trigger] b.token() by {
                if a.token() == b.token() {
                    assert(a.token().len() == b.token().len());
                    assert(a.token()[0] == b.token()[0]);
                    assert(a.token()[1] == b.token()[1]);
                }
            }
        }
        match method_from_token(self.token_str()) {
            Some(m) => m,
            None => unreached(),
        }
    }
}

/// `reqwest::Method::from_bytes` (the re-exported `http::Method`), on the bytes
/// of `token`. Its source maps each standard token to a fixed method value of
/// its own (distinct tokens to distinct values) without failing; of other
/// tokens nothing is claimed.
#[verifier::external_body]
fn method_from_token(token: &str) -> (m: Option<reqwest::Method>)
    ensures
        standard_method_token(token@) ==> m == Some(method_named(token@)),
        standard_method_token(token@) ==> forall|other: Seq<char>|
            standard_method_token(other) && other != token@ ==> m != Some(
                #[trigger] method_named(other),
            ),
{
    reqwest::Method::from_bytes(token.as_bytes()).ok()
}

/// `reqwest::Method`, a request method.
#[verifier::external_type_specification]
#[verifier::external_body]
pub struct ExMethod(reqwest::Method);

/// `reqwest::Url`, a parsed URL.
#[verifier::external_type_specification]
#[verifier::external_body]
pub struct ExUrl(reqwest::Url);

/// Representation of the method of a query to send for the `Http::get_guilds`,
/// `Http::get_bans`, and `Http::get_scheduled_event_users`, functions.
#[non_exhaustive]
pub enum Pagination {
    After(Snowflake),
    Before(Snowflake),
}

/// Representation of the method of a query to send for the `Http::get_messages` function.
#[derive(Clone, Copy, Debug)]
#[non_exhaustive]
pub enum MessagePagination {
    After(Snowflake),
    Around(Snowflake),
    Before(Snowflake),
}

/// The maximum number of members the bot can fetch at once
pub const MEMBER_FETCH_LIMIT: u16 = 1000;

/// Discord's official domains. This is used in [`parse_webhook`] and in its corresponding test.
pub const DOMAINS: [&'static str; 6] = [
    "discord.com",
    "canary.discord.com",
    "ptb.discord.com",
    "discordapp.com",
    "canary.discordapp.com",
    "ptb.discordapp.com",
];

/// The texts of [`DOMAINS`].
pub open spec fn official_domains() -> Seq<Seq<char>> {
    seq![
        "discord.com"@,
        "canary.discord.com"@,
        "ptb.discord.com"@,
        "discordapp.com"@,
        "canary.discordapp.com"@,
        "ptb.discordapp.com"@,
    ]
}

/// The path under which webhook URLs stand.
pub open spec fn webhook_path_prefix() -> Seq<char> {
    "/api/webhooks/"@
}

/// What [`parse_webhook_parts`] gives for a URL with this scheme, domain and
/// path: the path is the webhook prefix, the ID, a `/` and the token; the
/// scheme is `http` or `https`; the domain is one of [`DOMAINS`]; the ID takes
/// 17 to 20 bytes and is the decimal text of an ID; the token takes 60 to 68
/// bytes.
pub open spec fn webhook_of(scheme: Seq<char>, domain: Option<Seq<char>>, path: Seq<char>) -> Option<
    (u64, Seq<char>),
> {
    if !webhook_path_prefix().is_prefix_of(path) {
        None
    } else {
        let rest = path.skip(webhook_path_prefix().len() as int);
        match rest.index_of_first('/') {
            None => None,
            Some(i) => {
                let id = rest.take(i);
                let token = rest.skip(i + 1);
                if (scheme == "http"@ || scheme == "https"@) && (domain matches Some(d)
                    && official_domains().contains(d)) && 17 <= utf8_len(id) <= 20 && 60
                    <= utf8_len(token) <= 68 && (decimal_u64(id) matches Some(v) && v
                    != u64::MAX) {
                    Some((decimal_u64(id).unwrap(), token))
                } else {
                    None
                }
            },
        }
    }
}

/// Parses the id and token from a webhook url.
///
/// Only the URL's scheme, domain and path are read; the result is what
/// [`webhook_of`] gives for them.
#[must_use]
pub fn parse_webhook(url: &reqwest::Url) -> (r: Option<(Snowflake, &str)>)
    ensures
        match r {
            Some((id, token)) => webhook_of(url_scheme_of(*url), url_domain_of(*url), url_path_of(*url))
                == Some((id@, token@)),
            None => webhook_of(url_scheme_of(*url), url_domain_of(*url), url_path_of(*url)) is None,
        },
{
    let path = url_path(url);
    let scheme = url_scheme(url);
    let domain = url_domain(url);
    parse_webhook_parts(scheme, domain, path)
}

/// The path of a URL, as `url::Url::path` gives it.
pub uninterp spec fn url_path_of(url: reqwest::Url) -> Seq<char>;

/// The scheme of a URL, as `url::Url::scheme` gives it.
pub uninterp spec fn url_scheme_of(url: reqwest::Url) -> Seq<char>;

/// The domain of a URL, as `url::Url::domain` gives it.
pub uninterp spec fn url_domain_of(url: reqwest::Url) -> Option<Seq<char>>;

/// `reqwest::Url::path` (the re-exported `url::Url::path`): a field of the
/// parsed URL, so a function of the URL alone, named [`url_path_of`].
#[verifier::external_body]
fn url_path(url: &reqwest::Url) -> (r: &str)
    ensures
        r@ == url_path_of(*url),
{
    url.path()
}

/// `reqwest::Url::scheme` (the re-exported `url::Url::scheme`): a function of
/// the URL alone, named [`url_scheme_of`].
#[verifier::external_body]
fn url_scheme(url: &reqwest::Url) -> (r: &str)
    ensures
        r@ == url_scheme_of(*url),
{
    url.scheme()
}

/// `reqwest::Url::domain` (the re-exported `url::Url::domain`): a function of
/// the URL alone, named [`url_domain_of`].
#[verifier::external_body]
fn url_domain(url: &reqwest::Url) -> (r: Option<&str>)
    ensures
        r.deep_view() == url_domain_of(*url),
{
    url.domain()
}

/// Whether `domain` is one of [`DOMAINS`].
fn is_official_domain(domain: &str) -> (b: bool)
    ensures
        b == official_domains().contains(domain@),
{
    let domains = DOMAINS;
    let mut i: usize = 0;
    while i < 6
        invariant
            i <= 6,
            domains@.len() == 6,
            forall|j: int| 0 <= j < 6 ==> (#[trigger] domains@[j])@ == official_domains()[j],
            forall|j: int| 0 <= j < i ==> official_domains()[j] != domain@,
        decreases 6 - i,
    {
        if str_eq(domains[i], domain) {
            assert(official_domains()[i as int] == domain@);
            return true;
        }
        i = i + 1;
    }
    false
}

/// Reads the ID and the token of a webhook from the parts of its URL.
pub fn parse_webhook_parts<'a>(scheme: &str, domain: Option<&str>, path: &'a str) -> (r: Option<
    (Snowflake, &'a str),
>)
    ensures
        match r {
            Some((id, token)) => webhook_of(scheme@, domain.deep_view(), path@) == Some(
                (id@, token@),
            ),
            None => webhook_of(scheme@, domain.deep_view(), path@) is None,
        },
{
    let rest = match strip_prefix(path, "/api/webhooks/") {
        Some(rest) => rest,
        None => return None,
    };
    proof {
        rest@.index_of_first_ensures('/');
    }
    let (webhook_id, token) = match split_once(rest, '/') {
        Some(parts) => parts,
        None => return None,
    };
    if !(str_eq(scheme, "http") || str_eq(scheme, "https")) {
        return None;
    }
    let ghost domain_text = domain.deep_view();
    let domain = match domain {
        Some(d) => d,
        None => return None,
    };
    assert(domain_text == Some(domain@));
    if !is_official_domain(domain) {
        return None;
    }
    let id_len = webhook_id.as_bytes().len();
    if !(17 <= id_len && id_len <= 20) {
        return None;
    }
    let token_len = token.as_bytes().len();
    if !(60 <= token_len && token_len <= 68) {
        return None;
    }
    match Snowflake::from_str(webhook_id) {
        Ok(id) => Some((id, token)),
        Err(_) => None,
    }
}

/// A webhook URL built from an official domain under `http` or `https`, the
/// webhook path, the decimal text of an ID and a token of 60 to 68 bytes is
/// read back as exactly that ID and that token.
pub proof fn lemma_webhook_round_trip(
    scheme: Seq<char>,
    domain: Seq<char>,
    id: Seq<char>,
    token: Seq<char>,
)
    requires
        scheme == "http"@ || scheme == "https"@,
        official_domains().contains(domain),
        decimal_u64(id) matches Some(v) && v != u64::MAX,
        17 <= utf8_len(id) <= 20,
        60 <= utf8_len(token) <= 68,
    ensures
        webhook_of(scheme, Some(domain), webhook_path_prefix() + id + seq!['/'] + token) == Some(
            (decimal_u64(id).unwrap(), token),
        ),
{
    let prefix = webhook_path_prefix();
    let path = prefix + id + seq!['/'] + token;
    let rest = id + seq!['/'] + token;
    assert(path.subrange(0, prefix.len() as int) =~= prefix);
    assert(path.skip(prefix.len() as int) =~= rest);
    assert forall|j: int| 0 <= j < id.len() implies rest[j] != '/' by {
        let digits = if id.len() > 0 && id[0] == '+' {
            id.drop_first()
        } else {
            id
        };
        if id.len() > 0 && id[0] == '+' {
            if j > 0 {
                assert(crate::decimal::is_digit(digits[j - 1]));
            }
        } else {
            assert(crate::decimal::is_digit(digits[j]));
        }
    }
    rest.index_of_first_ensures('/');
    assert(rest[id.len() as int] == '/');
    assert(rest.index_of_first('/') == Some(id.len() as int));
    assert(rest.take(id.len() as int) =~= id);
    assert(rest.skip(id.len() + 1 as int) =~= token);
}

/// Only official webhook URLs are read: whatever the scheme, a URL whose
/// domain is absent or is not one of [`DOMAINS`] gives nothing. When a result
/// comes back, the scheme is `http` or `https`, the domain is one of
/// [`DOMAINS`], and the path is the webhook prefix, then the decimal text of
/// the ID (17 to 20 bytes, no `/`), a `/`, and the token (60 to 68 bytes).
pub proof fn lemma_webhook_only_official(
    scheme: Seq<char>,
    domain: Option<Seq<char>>,
    path: Seq<char>,
    id: u64,
    token: Seq<char>,
)
    requires
        webhook_of(scheme, domain, path) == Some((id, token)),
    ensures
        scheme == "http"@ || scheme == "https"@,
        domain matches Some(d) && exists|i: int| 0 <= i < 6 && (#[trigger] DOMAINS@[i])@ == d,
        exists|text: Seq<char>|
            path == "/api/webhooks/"@ + text + seq!['/'] + token && !text.contains('/')
                && decimal_u64(text) == Some(id) && id != u64::MAX && 17 <= utf8_len(text) <= 20,
        60 <= utf8_len(token) <= 68,
{
    let prefix = "/api/webhooks/"@;
    let rest = path.skip(prefix.len() as int);
    rest.index_of_first_ensures('/');
    let i = rest.index_of_first('/').unwrap();
    let text = rest.take(i);
    assert(path =~= prefix + text + seq!['/'] + token);
    assert(!text.contains('/'));
    let d = domain.unwrap();
    let k = choose|k: int| 0 <= k < 6 && official_domains()[k] == d;
    let domains = DOMAINS;
    assert(domains@[k]@ == official_domains()[k]);
}

} // verus!
