use vstd::prelude::*;

use crate::decimal::{dec_text, push_decimal};
use crate::query::{config_problem, validate, AuthMode, ConfigError, QueryParams};

verus! {

pub open spec fn bool_text(b: bool) -> Seq<char> {
    if b {
        "true"@
    } else {
        "false"@
    }
}

/// `{base}/ticker/{ticker}/range/{multiplier}/{timespan}/{from}/{to}` and the
/// query string `?adjusted={adjusted}&sort={sort}`: the URL with no secret.
pub open spec fn bare_url(base: Seq<char>, q: QueryParams) -> Seq<char> {
    base + "/ticker/"@ + q.ticker@ + "/range/"@ + dec_text(q.multiplier as nat) + "/"@
        + q.timespan.text() + "/"@ + q.from@ + "/"@ + q.to@ + "?adjusted="@ + bool_text(
        q.adjusted,
    ) + "&sort="@ + q.sort.text()
}

/// The request URL: with inline-key authorization the bare URL followed by
/// `&apiKey={secret}`, with header-bearer authorization the bare URL alone.
pub open spec fn url_text(
    base: Seq<char>,
    q: QueryParams,
    auth: AuthMode,
    secret: Seq<char>,
) -> Seq<char> {
    match auth {
        AuthMode::InlineKey => bare_url(base, q) + "&apiKey="@ + secret,
        AuthMode::HeaderBearer => bare_url(base, q),
    }
}

/// The value of the `Authorization` header for a bearer token.
pub open spec fn bearer_text(secret: Seq<char>) -> Seq<char> {
    "Bearer "@ + secret
}

fn append_bool(s: &mut String, b: bool)
    ensures
        final(s)@ == old(s)@ + bool_text(b),
{
    if b {
        s.append("true");
    } else {
        s.append("false");
    }
}

/// Builds the endpoint URL for the query under the chosen authorization.
pub fn build_url(base: &str, q: &QueryParams, auth: AuthMode, secret: &str) -> (r: Result<
    String,
    ConfigError,
>)
    ensures
        match config_problem(*q, secret@) {
            Some(e) => r == Err::<String, ConfigError>(e),
            None => r is Ok && r->Ok_0@ == url_text(base@, *q, auth, secret@),
        },
{
    match validate(q, secret) {
        Err(e) => Err(e),
        Ok(()) => {
            let mut s = String::from_str(base);
            s.append("/ticker/");
            s.append(q.ticker.as_str());
            s.append("/range/");
            push_decimal(&mut s, q.multiplier);
            s.append("/");
            s.append(q.timespan.as_str());
            s.append("/");
            s.append(q.from.as_str());
            s.append("/");
            s.append(q.to.as_str());
            s.append("?adjusted=");
            append_bool(&mut s, q.adjusted);
            s.append("&sort=");
            s.append(q.sort.as_str());
            match auth {
                AuthMode::InlineKey => {
                    s.append("&apiKey=");
                    s.append(secret);
                },
                AuthMode::HeaderBearer => {},
            }
            Ok(s)
        },
    }
}

/// What to send: the URL, and the `Authorization` header value if any.
#[derive(Clone, Debug)]
pub struct Request {
    pub url: String,
    pub authorization: Option<String>,
}

/// Builds the request for the query: the URL of `build_url`, and with
/// header-bearer authorization the header value `Bearer {secret}`.
pub fn build_request(base: &str, q: &QueryParams, auth: AuthMode, secret: &str) -> (r: Result<
    Request,
    ConfigError,
>)
    ensures
        match config_problem(*q, secret@) {
            Some(e) => r == Err::<Request, ConfigError>(e),
            None => r is Ok && r->Ok_0.url@ == url_text(base@, *q, auth, secret@) && match auth {
                AuthMode::InlineKey => r->Ok_0.authorization is None,
                AuthMode::HeaderBearer => r->Ok_0.authorization is Some
                    && r->Ok_0.authorization->Some_0@ == bearer_text(secret@),
            },
        },
{
    match build_url(base, q, auth, secret) {
        Err(e) => Err(e),
        Ok(url) => {
            let authorization = match auth {
                AuthMode::InlineKey => None,
                AuthMode::HeaderBearer => {
                    let mut v = String::from_str("Bearer ");
                    v.append(secret);
                    Some(v)
                },
            };
            Ok(Request { url, authorization })
        },
    }
}

/// The two authorizations give the same URL but for the trailing
/// `&apiKey={secret}`, which only the inline key carries.
pub proof fn lemma_inline_key_extends_bearer_url(
    base: Seq<char>,
    q: QueryParams,
    secret: Seq<char>,
)
    ensures
        url_text(base, q, AuthMode::InlineKey, secret) == url_text(
            base,
            q,
            AuthMode::HeaderBearer,
            secret,
        ) + "&apiKey="@ + secret,
        url_text(base, q, AuthMode::HeaderBearer, secret) == bare_url(base, q),
{
}

/// Whatever the authorization, the URL starts with the bare URL, and the
/// bare URL starts with the base, `/ticker/` and the ticker, and ends with
/// `&sort=` and the sort order.
pub proof fn lemma_url_layout(base: Seq<char>, q: QueryParams, auth: AuthMode, secret: Seq<char>)
    ensures
        ({
            let u = url_text(base, q, auth, secret);
            let b = bare_url(base, q);
            let t: int = base.len() as int + 8;
            &&& u.subrange(0, b.len() as int) == b
            &&& b.subrange(0, base.len() as int) == base
            &&& b.subrange(base.len() as int, t) == "/ticker/"@
            &&& b.subrange(t, t + q.ticker@.len() as int) == q.ticker@
            &&& b.subrange(b.len() - q.sort.text().len(), b.len() as int) == q.sort.text()
            &&& b.subrange(b.len() - q.sort.text().len() - 6, b.len() - q.sort.text().len())
                == "&sort="@
        }),
{
    reveal_strlit("/ticker/");
    reveal_strlit("&sort=");
    let u = url_text(base, q, auth, secret);
    let b = bare_url(base, q);
    let t: int = base.len() as int + 8;
    let head = base + "/ticker/"@ + q.ticker@;
    let sort = q.sort.text();
    assert(u.subrange(0, b.len() as int) =~= b);
    assert(b.subrange(0, head.len() as int) =~= head);
    assert(head.subrange(0, base.len() as int) =~= base);
    assert(head.subrange(base.len() as int, t) =~= "/ticker/"@);
    assert(head.subrange(t, t + q.ticker@.len() as int) =~= q.ticker@);
    assert(b.subrange(b.len() - sort.len(), b.len() as int) =~= sort);
    assert(b.subrange(b.len() - sort.len() - 6, b.len() - sort.len()) =~= "&sort="@);
}

} // verus!
