//! What a request is built from: its URI and its headers, checked as the
//! `http` crate behind `hyper` checks them.

use vstd::prelude::*;
use vstd::string::StringExecFns;
use hyper::header::{HeaderName, HeaderValue};
use crate::config::{Config, Headers};
use crate::http::uri::{CheckedUri, parse_uri, uri_parse_error};
use crate::error::{BastionError, invalid_config, is_invalid_config};
use crate::text::string_from;

verus! {

/// A character `HeaderName::from_bytes` takes in a name: a letter, a digit
/// or one of ``! # $ % & ' * + - . ^ _ ` | ~``.
pub open spec fn is_token_char(c: char) -> bool {
    ||| ('a' <= c && c <= 'z')
    ||| ('A' <= c && c <= 'Z')
    ||| ('0' <= c && c <= '9')
    ||| c == '!' || c == '#' || c == '$' || c == '%' || c == '&' || c == '\''
    ||| c == '*' || c == '+' || c == '-' || c == '.' || c == '^' || c == '_'
    ||| c == '`' || c == '|' || c == '~'
}

/// Whether `HeaderName::from_bytes` takes `s` as a header name: one to
/// 65535 token characters.
pub open spec fn valid_header_name(s: Seq<char>) -> bool {
    &&& 1 <= s.len() <= 65535
    &&& forall|i: int| 0 <= i < s.len() ==> is_token_char(#[trigger] s[i])
}

/// A character `HeaderValue::from_str` takes in a value: a tab, or any
/// character from the space up but DEL (every byte of a non-ASCII
/// character is 128 or more).
pub open spec fn is_value_char(c: char) -> bool {
    ((c as u32) >= 32 && (c as u32) != 127) || c == '\t'
}

/// Whether `HeaderValue::from_str` takes `s` as a header value.
pub open spec fn valid_header_value(s: Seq<char>) -> bool {
    forall|i: int| 0 <= i < s.len() ==> is_value_char(#[trigger] s[i])
}

/// `HeaderName::from_bytes` on the bytes of `name`: it accepts exactly the
/// names of one to 65535 token characters (its table maps every other byte,
/// and every byte of a non-ASCII character, to zero), and refuses the rest
/// with an error whose message is "invalid HTTP header name".
#[verifier::external_body]
fn check_header_name(name: &str) -> (r: Result<(), String>)
    ensures
        r is Ok <==> valid_header_name(name@),
        r matches Err(e) ==> e@ == "invalid HTTP header name"@,
{
    HeaderName::from_bytes(name.as_bytes()).map(|_| ()).map_err(|e| e.to_string())
}

/// `HeaderValue::from_str`: it accepts exactly the values whose every byte
/// is a tab or at least 32 and not 127, and refuses the rest with an error
/// whose message is "failed to parse header value".
#[verifier::external_body]
fn check_header_value(value: &str) -> (r: Result<(), String>)
    ensures
        r is Ok <==> valid_header_value(value@),
        r matches Err(e) ==> e@ == "failed to parse header value"@,
{
    HeaderValue::from_str(value).map(|_| ()).map_err(|e| e.to_string())
}

/// The message for the first of the configured headers `hs` that the
/// `http` crate refuses, name before value, or `None` where it takes them
/// all.
pub open spec fn header_error(hs: Seq<(Seq<char>, Seq<char>)>) -> Option<Seq<char>>
    decreases hs.len(),
{
    if hs.len() == 0 {
        None
    } else if !valid_header_name(hs[0].0) {
        Some("Invalid header name '"@ + hs[0].0 + "': "@ + "invalid HTTP header name"@)
    } else if !valid_header_value(hs[0].1) {
        Some("Invalid header value '"@ + hs[0].1 + "': "@ + "failed to parse header value"@)
    } else {
        header_error(hs.drop_first())
    }
}

/// Whether a request of `config` carries a body: a configured, non-empty one.
pub open spec fn has_body(config: Config) -> bool {
    config.body matches Some(b) && b@.len() > 0
}

/// The headers of every request, in order: the user agent, the JSON content
/// type where there is a body, then the configured headers `hs`.
pub open spec fn request_headers(hs: Seq<(Seq<char>, Seq<char>)>, body: bool) -> Seq<
    (Seq<char>, Seq<char>),
> {
    let agent = seq![("user-agent"@, "bastion/0.2.0"@)];
    if body {
        agent.push(("content-type"@, "application/json"@)) + hs
    } else {
        agent + hs
    }
}

/// The names and values of `v`.
pub open spec fn header_texts(v: Seq<(String, String)>) -> Seq<(Seq<char>, Seq<char>)> {
    v.map_values(|e: (String, String)| (e.0@, e.1@))
}

/// `fixed` followed by the configured headers, each configured name and
/// value checked in turn by the `http` crate: an `InvalidConfig` error for
/// the first one refused.
pub fn checked_headers(fixed: Vec<(String, String)>, configured: &Headers) -> (r: Result<
    Vec<(String, String)>,
    BastionError,
>)
    ensures
        match header_error(configured.pairs()) {
            Some(m) => r matches Err(e) && is_invalid_config(e, m),
            None => r matches Ok(v) && header_texts(v@) == header_texts(fixed@)
                + configured.pairs(),
        },
{
    let mut headers = fixed;
    let ghost start = header_texts(headers@);
    let ghost hs = configured.pairs();
    proof {
        assert(start + hs.take(0) =~= start);
        assert(hs.skip(0) =~= hs);
    }
    let n = configured.len();
    let mut i: usize = 0;
    while i < n
        invariant
            n == hs.len(),
            hs == configured.pairs(),
            i <= n,
            header_texts(headers@) == start + hs.take(i as int),
            header_error(hs) == header_error(hs.skip(i as int)),
        decreases n - i,
    {
        let entry = configured.entry(i);
        let name = &entry.0;
        let value = &entry.1;
        assert(hs.skip(i as int)[0] == hs[i as int]);
        match check_header_name(name.as_str()) {
            Ok(()) => {},
            Err(e) => {
                let mut m = string_from("Invalid header name '");
                m.append(name.as_str());
                m.append("': ");
                m.append(e.as_str());
                return Err(invalid_config(m));
            },
        }
        match check_header_value(value.as_str()) {
            Ok(()) => {},
            Err(e) => {
                let mut m = string_from("Invalid header value '");
                m.append(value.as_str());
                m.append("': ");
                m.append(e.as_str());
                return Err(invalid_config(m));
            },
        }
        let ghost before = headers@;
        headers.push((name.clone(), value.clone()));
        proof {
            assert(hs.skip(i as int).drop_first() =~= hs.skip(i + 1));
            assert(hs.take(i + 1) =~= hs.take(i as int).push(hs[i as int]));
            assert(header_texts(headers@) =~= header_texts(before).push(hs[i as int]));
        }
        i = i + 1;
    }
    proof {
        assert(hs.take(n as int) =~= hs);
        assert(hs.skip(n as int) =~= Seq::<(Seq<char>, Seq<char>)>::empty());
    }
    Ok(headers)
}

/// A request's URI and headers, checked.
pub struct RequestParts {
    pub uri: CheckedUri,
    pub headers: Vec<(String, String)>,
}

/// The URI and headers of every request of `config`, given the URI parser's
/// verdict `uri` on its URL: an `InvalidConfig` error "Invalid URI: ..."
/// for a refused URL, then the headers of `request_headers`, each configured
/// name and value checked in turn (an `InvalidConfig` error for the first
/// one refused).
pub fn request_parts_from(config: &Config, uri: Result<CheckedUri, String>) -> (r: Result<
    RequestParts,
    BastionError,
>)
    ensures
        uri matches Err(m) ==> (r matches Err(e) && is_invalid_config(e, "Invalid URI: "@ + m@)),
        uri matches Ok(u) ==> (r matches Ok(p) ==> p.uri == u),
        uri is Ok ==> match header_error(config.headers.pairs()) {
            Some(m) => r matches Err(e) && is_invalid_config(e, m),
            None => r matches Ok(p) && header_texts(p.headers@) == request_headers(
                config.headers.pairs(),
                has_body(*config),
            ),
        },
{
    let uri = match uri {
        Ok(u) => u,
        Err(e) => {
            let mut m = string_from("Invalid URI: ");
            m.append(e.as_str());
            return Err(invalid_config(m));
        },
    };
    let body = match &config.body {
        Some(b) => b.as_str().unicode_len() > 0,
        None => false,
    };
    let mut fixed: Vec<(String, String)> = Vec::new();
    fixed.push((string_from("user-agent"), string_from("bastion/0.2.0")));
    if body {
        fixed.push((string_from("content-type"), string_from("application/json")));
    }
    proof {
        assert(header_texts(fixed@) =~= if body {
            seq![("user-agent"@, "bastion/0.2.0"@), ("content-type"@, "application/json"@)]
        } else {
            seq![("user-agent"@, "bastion/0.2.0"@)]
        });
    }
    let headers = checked_headers(fixed, &config.headers)?;
    proof {
        assert(header_texts(headers@) =~= request_headers(config.headers.pairs(), has_body(*config)));
    }
    Ok(RequestParts { uri, headers })
}

/// The URI and headers of every request of `config`: the URL parsed as a
/// URI by `http` (an `InvalidConfig` error "Invalid URI: ..." where that
/// fails), then the checked headers, as `request_parts_from` says. The URI
/// of the parts is the one parsed from the configured URL.
pub fn request_parts(config: &Config) -> (r: Result<RequestParts, BastionError>)
    ensures
        r matches Ok(p) ==> p.uri.url() == config.url@,
        uri_parse_error(config.url@) matches Some(m) ==> (r matches Err(e) && is_invalid_config(
            e,
            "Invalid URI: "@ + m,
        )),
        uri_parse_error(config.url@) is None ==> match header_error(config.headers.pairs()) {
            Some(m) => r matches Err(e) && is_invalid_config(e, m),
            None => r matches Ok(p) && header_texts(p.headers@) == request_headers(
                config.headers.pairs(),
                has_body(*config),
            ),
        },
{
    request_parts_from(config, parse_uri(config.url.as_str()))
}

} // verus!
