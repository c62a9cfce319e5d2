use vstd::prelude::*;
use vstd::string::*;

use crate::text::{owned, starts_with, str_eq, trim, trim_str};

verus! {

/// A browser address reduced to its host: `url` and `domain` are both the
/// host name without a leading `www.`.
pub struct SanitizedUrl {
    pub url: String,
    pub domain: String,
}

/// The view of an optional string.
pub open spec fn opt_view(o: Option<String>) -> Option<Seq<char>> {
    match o {
        Some(s) => Some(s@),
        None => None,
    }
}

/// What `url::Url::parse` gives for `raw`, taken by the parsed URL's scheme
/// and host (`Url::scheme`, `Url::host_str`); `None` when parsing fails.
pub uninterp spec fn url_scheme_host(raw: Seq<char>) -> Option<(Seq<char>, Option<Seq<char>>)>;

/// Calls `url::Url::parse` and reads `scheme()` and `host_str()` of the
/// result. Claims only that the outcome is `url_scheme_host` of the input;
/// the WHATWG parsing rules are not restated.
#[verifier::external_body]
fn parse_scheme_host(raw: &str) -> (r: Option<(String, Option<String>)>)
    ensures
        match r {
            Some(p) => url_scheme_host(raw@) == Some((p.0@, opt_view(p.1))),
            None => url_scheme_host(raw@) is None,
        },
{
    match url::Url::parse(raw) {
        Ok(u) => {
            let host = match u.host_str() {
                Some(h) => Some(h.to_string()),
                None => None,
            };
            Some((u.scheme().to_string(), host))
        },
        Err(_) => None,
    }
}

/// The host without one leading `www.`.
pub open spec fn strip_www(host: Seq<char>) -> Seq<char> {
    if "www."@.is_prefix_of(host) {
        host.skip(4)
    } else {
        host
    }
}

/// The domain kept of a parsed address: only `http` and `https` addresses
/// with a host count, and the host must not be empty once `www.` is gone.
pub open spec fn domain_of_parts(scheme: Seq<char>, host: Option<Seq<char>>) -> Option<Seq<char>> {
    if scheme != "http"@ && scheme != "https"@ {
        None
    } else {
        match host {
            Some(h) => if strip_www(h).len() == 0 {
                None
            } else {
                Some(strip_www(h))
            },
            None => None,
        }
    }
}

/// The domain that `sanitize_url` keeps of a raw address.
pub open spec fn sanitized_domain(raw: Option<Seq<char>>) -> Option<Seq<char>> {
    match raw {
        None => None,
        Some(r) => if trim(r).len() == 0 {
            None
        } else {
            match url_scheme_host(trim(r)) {
                Some(p) => domain_of_parts(p.0, p.1),
                None => None,
            }
        },
    }
}

/// Whether a sanitized result matches the domain that the rules keep.
pub open spec fn sanitized_is(r: Option<SanitizedUrl>, d: Option<Seq<char>>) -> bool {
    match d {
        Some(dom) => r is Some && r->0.url@ == dom && r->0.domain@ == dom,
        None => r is None,
    }
}

fn strip_www_exec(host: &str) -> (r: String)
    ensures
        r@ == strip_www(host@),
{
    if starts_with(host, "www.") {
        proof {
            reveal_strlit("www.");
        }
        let n = host.unicode_len();
        owned(host.substring_char(4, n))
    } else {
        owned(host)
    }
}

/// Keeps the domain of an already parsed address, given its scheme and host.
pub fn sanitize_parts(scheme: &str, host: Option<&str>) -> (r: Option<SanitizedUrl>)
    ensures
        sanitized_is(
            r,
            domain_of_parts(
                scheme@,
                match host {
                    Some(h) => Some(h@),
                    None => None,
                },
            ),
        ),
{
    if !str_eq(scheme, "http") && !str_eq(scheme, "https") {
        return None;
    }
    let h = match host {
        Some(h) => h,
        None => return None,
    };
    let domain = strip_www_exec(h);
    if domain.unicode_len() == 0 {
        return None;
    }
    let url = domain.clone();
    Some(SanitizedUrl { url, domain })
}

/// Reduces a browser address to its host: trims it, parses it as a URL, keeps
/// only `http`/`https` addresses with a host, and drops one leading `www.`.
pub fn sanitize_url(raw: Option<&str>) -> (r: Option<SanitizedUrl>)
    ensures
        sanitized_is(
            r,
            sanitized_domain(
                match raw {
                    Some(s) => Some(s@),
                    None => None,
                },
            ),
        ),
{
    let raw = match raw {
        Some(s) => s,
        None => return None,
    };
    let t = trim_str(raw);
    if t.unicode_len() == 0 {
        return None;
    }
    match parse_scheme_host(t.as_str()) {
        Some(p) => {
            let host = match &p.1 {
                Some(h) => Some(h.as_str()),
                None => None,
            };
            sanitize_parts(p.0.as_str(), host)
        },
        None => None,
    }
}

/// A sanitized address is never empty.
pub proof fn law_sanitized_domain_nonempty(raw: Option<Seq<char>>)
    ensures
        sanitized_domain(raw) matches Some(d) ==> d.len() > 0,
{
}

} // verus!
