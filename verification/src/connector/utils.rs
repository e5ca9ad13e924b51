//! `did:web` identifiers: the identifier of a connector's address, and the URL of the
//! DID document that an identifier names.
use vstd::prelude::*;
use crate::text::{
    concat2, concat3, decimal, decimal_string, find_char, find_char_from, matches_at, opt_str_view, replace, replace_all,
    replaced_from, strip_prefix,
};
use vstd::string::StrSliceExecFns;

verus! {

#[verifier::external_type_specification]
#[verifier::external_body]
pub struct ExParseError(url::ParseError);

/// What `url::Url::parse` makes of a text, where it accepts it: the URL's
/// serialization, its host and its port (none where the port is the scheme's default).
pub uninterp spec fn url_parts(s: Seq<char>) -> Option<(Seq<char>, Option<Seq<char>>, Option<u16>)>;

/// The parts of a parsed URL that the library reads.
pub struct UrlParts {
    pub serialization: String,
    pub host: Option<String>,
    pub port: Option<u16>,
}

/// Calls `url::Url::parse` and reads `as_str`, `host_str` and `port` of the result.
/// Claimed: the result depends on the text alone, and is an error exactly where the
/// parts are not named.
#[verifier::external_body]
fn parse_url(s: &str) -> (r: Result<UrlParts, url::ParseError>)
    ensures
        match r {
            Ok(p) => url_parts(s@) == Some((p.serialization@, opt_str_view(p.host), p.port)),
            Err(_) => url_parts(s@) is None,
        },
{
    let url = url::Url::parse(s)?;
    let host = match url.host_str() {
        Some(h) => Some(h.to_owned()),
        None => None,
    };
    Ok(UrlParts { serialization: url.as_str().to_owned(), host, port: url.port() })
}

/// Why a `did:web` identifier or its URL could not be made.
#[derive(Debug, PartialEq, Eq)]
pub enum DidWebError {
    /// The address is not a URL.
    InvalidAddress,
    /// The address has no host.
    NoAuthority,
    /// The identifier does not start with `did:web:`.
    MissingPrefix,
    /// The identifier does not name a valid URL.
    InvalidUrl,
}

/// The `did:web` identifier of a host, with its port where there is one.
pub open spec fn did_web_of(host: Seq<char>, port: Option<u16>) -> Seq<char> {
    match port {
        Some(p) => "did:web:"@ + host + "%3A"@ + decimal(p as nat),
        None => "did:web:"@ + host,
    }
}

/// The `did:web` identifier of a parsed address: an error where it has no host.
pub fn did_web_from_host(host: Option<&str>, port: Option<u16>) -> (r: Result<String, DidWebError>)
    ensures
        match host {
            Some(h) => r == Ok::<String, DidWebError>(r->Ok_0) && r->Ok_0@ == did_web_of(h@, port),
            None => r == Err::<String, DidWebError>(DidWebError::NoAuthority),
        },
{
    match host {
        Some(h) => match port {
            Some(p) => {
                let authority = concat3(h, "%3A", decimal_string(p).as_str());
                let r = concat2("did:web:", authority.as_str());
                proof {
                    assert(r@ =~= did_web_of(h@, port));
                }
                Ok(r)
            },
            None => Ok(concat2("did:web:", h)),
        },
        None => Err(DidWebError::NoAuthority),
    }
}

/// The `did:web` identifier of a connector reachable at `address`.
pub fn derive_did_web(address: &str) -> (r: Result<String, DidWebError>)
    ensures
        match url_parts(address@) {
            None => r == Err::<String, DidWebError>(DidWebError::InvalidAddress),
            Some((_, None, _)) => r == Err::<String, DidWebError>(DidWebError::NoAuthority),
            Some((_, Some(h), port)) => r is Ok && r->Ok_0@ == did_web_of(h, port),
        },
{
    match parse_url(address) {
        Ok(parts) => match &parts.host {
            Some(h) => did_web_from_host(Some(h.as_str()), parts.port),
            None => did_web_from_host(None, parts.port),
        },
        Err(_) => Err(DidWebError::InvalidAddress),
    }
}

/// The URL text of the DID document that the method-specific identifier `id` names: the
/// first `:`-separated segment is the domain, with `%3A` standing for `:`; the others
/// form the path, or the document is the domain's well-known one.
pub open spec fn did_document_url(id: Seq<char>, enforce_https: bool) -> Seq<char> {
    let (head, rest) = match find_char_from(id, ':', 0) {
        Some(k) => (id.subrange(0, k), Some(id.subrange(k + 1, id.len() as int))),
        None => (id, None),
    };
    let domain = replace_all(replace_all(head, "%3A"@, ":"@), "%3a"@, ":"@);
    let path = match rest {
        Some(r) => replace_all(r, ":"@, "/"@),
        None => Seq::empty(),
    };
    let protocol = if enforce_https {
        "https"@
    } else {
        "http"@
    };
    if path.len() == 0 {
        protocol + "://"@ + domain + "/.well-known/did.json"@
    } else {
        protocol + "://"@ + domain + "/"@ + path + "/did.json"@
    }
}

/// The URL text of the DID document that `did_web` names, before it is parsed.
pub fn did_web_url_text(did_web: &str, enforce_https: bool) -> (r: Result<String, DidWebError>)
    ensures
        match r {
            Ok(u) => matches_at(did_web@, "did:web:"@, 0) && u@ == did_document_url(
                did_web@.subrange(8, did_web@.len() as int),
                enforce_https,
            ),
            Err(e) => !matches_at(did_web@, "did:web:"@, 0) && e == DidWebError::MissingPrefix,
        },
{
    proof {
        reveal_strlit("did:web:");
        reveal_strlit(":");
        reveal_strlit("%3A");
        reveal_strlit("%3a");
    }
    let id = match strip_prefix(did_web, "did:web:") {
        Some(id) => id,
        None => return Err(DidWebError::MissingPrefix),
    };
    let n = id.unicode_len();
    let (head, rest) = match find_char(id, ':') {
        Some(k) => (id.substring_char(0, k), Some(id.substring_char(k + 1, n))),
        None => (id, None),
    };
    let domain = replace(replace(head, "%3A", ":").as_str(), "%3a", ":");
    let path = match rest {
        Some(r) => replace(r, ":", "/"),
        None => String::new(),
    };
    let protocol = if enforce_https {
        "https"
    } else {
        "http"
    };
    let base = concat3(protocol, "://", domain.as_str());
    let url = if path.unicode_len() == 0 {
        concat2(base.as_str(), "/.well-known/did.json")
    } else {
        concat3(base.as_str(), "/", concat2(path.as_str(), "/did.json").as_str())
    };
    proof {
        assert(url@ =~= did_document_url(did_web@.subrange(8, did_web@.len() as int), enforce_https));
    }
    Ok(url)
}

/// The URL of the DID document that `did_web` names, as `url::Url` serializes it.
pub fn resolve_did_web(did_web: &str, enforce_https: bool) -> (r: Result<String, DidWebError>)
    ensures
        !matches_at(did_web@, "did:web:"@, 0) ==> r == Err::<String, DidWebError>(DidWebError::MissingPrefix),
        matches_at(did_web@, "did:web:"@, 0) ==> match url_parts(
            did_document_url(did_web@.subrange(8, did_web@.len() as int), enforce_https),
        ) {
            Some((text, _, _)) => r is Ok && r->Ok_0@ == text,
            None => r == Err::<String, DidWebError>(DidWebError::InvalidUrl),
        },
{
    let text = did_web_url_text(did_web, enforce_https)?;
    match parse_url(text.as_str()) {
        Ok(parts) => Ok(parts.serialization),
        Err(_) => Err(DidWebError::InvalidUrl),
    }
}

// ---------------------------------------------------------------------------
// From an address to its document
// ---------------------------------------------------------------------------

/// `s` holds the character `c` nowhere from index `i` on.
pub open spec fn lacks_from(s: Seq<char>, c: char, i: int) -> bool {
    forall|k: int| i <= k < s.len() ==> s[k] != c
}

proof fn lemma_find_char_none(s: Seq<char>, c: char, i: int)
    requires
        0 <= i <= s.len(),
        lacks_from(s, c, i),
    ensures
        find_char_from(s, c, i) is None,
    decreases s.len() - i,
{
    if i < s.len() {
        lemma_find_char_none(s, c, i + 1);
    }
}

/// Replacing a pattern leaves a text alone from where it holds the pattern's first
/// character nowhere.
proof fn lemma_replace_nothing(s: Seq<char>, pat: Seq<char>, rep: Seq<char>, i: int)
    requires
        0 <= i <= s.len(),
        pat.len() > 0,
        lacks_from(s, pat[0], i),
    ensures
        replaced_from(s, pat, rep, i) == s.subrange(i, s.len() as int),
    decreases s.len() - i,
{
    if i < s.len() {
        if i + pat.len() <= s.len() {
            assert(s.subrange(i, i + pat.len())[0] == s[i]);
        }
        lemma_replace_nothing(s, pat, rep, i + 1);
        assert(seq![s[i]] + s.subrange(i + 1, s.len() as int) =~= s.subrange(i, s.len() as int));
    } else {
        assert(s.subrange(i, s.len() as int) =~= Seq::<char>::empty());
    }
}

/// In `x + pat + y`, where `x` and `y` do not hold the pattern's first character, the
/// one occurrence of the pattern is replaced.
proof fn lemma_replace_one(x: Seq<char>, pat: Seq<char>, rep: Seq<char>, y: Seq<char>, i: int)
    requires
        0 <= i <= x.len(),
        pat.len() > 0,
        lacks_from(x, pat[0], 0),
        lacks_from(y, pat[0], 0),
    ensures
        replaced_from(x + pat + y, pat, rep, i) == x.subrange(i, x.len() as int) + rep + y,
    decreases x.len() - i,
{
    let s = x + pat + y;
    if i < x.len() {
        assert(s[i] == x[i]);
        assert(s.subrange(i, i + pat.len())[0] == s[i]);
        lemma_replace_one(x, pat, rep, y, i + 1);
        assert(seq![s[i]] + (x.subrange(i + 1, x.len() as int) + rep + y) =~= x.subrange(i, x.len() as int) + rep + y);
    } else {
        assert(s.subrange(i, i + pat.len()) =~= pat);
        let j = i + pat.len();
        assert forall|k: int| j <= k < s.len() implies s[k] != pat[0] by {
            assert(s[k] == y[k - j]);
        }
        lemma_replace_nothing(s, pat, rep, j);
        assert(s.subrange(j, s.len() as int) =~= y);
        assert(x.subrange(i, x.len() as int) =~= Seq::<char>::empty());
        assert(Seq::<char>::empty() + rep + y =~= rep + y);
    }
}

proof fn lemma_decimal_digits(n: nat)
    ensures
        forall|k: int| 0 <= k < decimal(n).len() ==> 48 <= (#[trigger] decimal(n)[k]) as int <= 57,
    decreases n,
{
    let d = crate::text::digit_char(n % 10);
    assert(d as int == 48 + n % 10);
    if n >= 10 {
        lemma_decimal_digits(n / 10);
        let prev = decimal(n / 10);
        assert(decimal(n) == prev.push(d));
        assert forall|k: int| 0 <= k < decimal(n).len() implies 48 <= (#[trigger] decimal(n)[k]) as int <= 57 by {
            if k < prev.len() {
                assert(decimal(n)[k] == prev[k]);
            } else {
                assert(decimal(n)[k] == d);
            }
        }
    } else {
        assert(decimal(n) == seq![d]);
    }
}

/// The authority that a `did:web` of `host` and `port` stands for: the host, and the
/// port after a colon where there is one.
pub open spec fn authority_of(host: Seq<char>, port: Option<u16>) -> Seq<char> {
    match port {
        Some(p) => host + ":"@ + decimal(p as nat),
        None => host,
    }
}

/// The `did:web` derived from an address names the address's well-known DID document:
/// for a host without `:` and `%` (a domain name or an IPv4 address), the URL text of
/// the document of `did_web_of(host, port)` is `http(s)://host[:port]/.well-known/did.json`.
pub proof fn derived_did_web_names_the_well_known_document(host: Seq<char>, port: Option<u16>, enforce_https: bool)
    requires
        lacks_from(host, ':', 0),
        lacks_from(host, '%', 0),
    ensures
        did_document_url(did_web_of(host, port).subrange(8, did_web_of(host, port).len() as int), enforce_https) == (if enforce_https {
            "https"@
        } else {
            "http"@
        }) + "://"@ + authority_of(host, port) + "/.well-known/did.json"@,
{
    reveal_strlit("did:web:");
    reveal_strlit("%3A");
    reveal_strlit("%3a");
    reveal_strlit(":");
    let did = did_web_of(host, port);
    let id = did.subrange(8, did.len() as int);
    let domain = authority_of(host, port);
    match port {
        Some(p) => {
            let dec = decimal(p as nat);
            lemma_decimal_digits(p as nat);
            assert(id =~= host + "%3A"@ + dec);
            assert forall|k: int| 0 <= k < id.len() implies id[k] != ':' by {
                if k < host.len() {
                    assert(id[k] == host[k]);
                } else if k < host.len() + 3 {
                    assert(id[k] == "%3A"@[k - host.len()]);
                } else {
                    assert(id[k] == dec[k - host.len() - 3]);
                }
            }
            lemma_find_char_none(id, ':', 0);
            assert(lacks_from(dec, '%', 0));
            lemma_replace_one(host, "%3A"@, ":"@, dec, 0);
            assert(host.subrange(0, host.len() as int) =~= host);
            let once = replace_all(id, "%3A"@, ":"@);
            assert(once == domain);
            assert forall|k: int| 0 <= k < once.len() implies once[k] != '%' by {
                if k < host.len() {
                    assert(once[k] == host[k]);
                } else if k == host.len() {
                } else {
                    assert(once[k] == dec[k - host.len() - 1]);
                }
            }
            lemma_replace_nothing(once, "%3a"@, ":"@, 0);
            assert(once.subrange(0, once.len() as int) =~= once);
        },
        None => {
            assert(id =~= host);
            lemma_find_char_none(id, ':', 0);
            lemma_replace_nothing(id, "%3A"@, ":"@, 0);
            assert(id.subrange(0, id.len() as int) =~= id);
            lemma_replace_nothing(id, "%3a"@, ":"@, 0);
        },
    }
}

} // verus!
