//! The echo service used to test data transfers: it answers a request with a JSON
//! description of that request.
use vstd::prelude::*;
use base64::Engine;
use crate::json::{Json, JsonModel, members_model, lemma_members_model, push_member};
use crate::text::str_eq;

verus! {

broadcast use vstd::std_specs::vec::group_vec_axioms;

/// What `url::form_urlencoded::parse` reads from a query string: its name and value
/// pairs, decoded, in order.
pub uninterp spec fn form_pairs(query: Seq<char>) -> Seq<(Seq<char>, Seq<char>)>;

/// The character of a six-bit value in the standard base64 alphabet.
pub open spec fn base64_char(v: nat) -> char {
    if v < 26 {
        (65 + v) as char
    } else if v < 52 {
        (71 + v) as char
    } else if v < 62 {
        (v - 4) as char
    } else if v == 62 {
        '+'
    } else {
        '/'
    }
}

/// Standard base64 with padding: each group of three bytes becomes four characters of
/// six bits each; a last group of one or two bytes is padded with `=`.
pub open spec fn base64_standard(b: Seq<u8>) -> Seq<char>
    decreases b.len(),
{
    if b.len() == 0 {
        Seq::empty()
    } else if b.len() == 1 {
        seq![base64_char(b[0] as nat / 4), base64_char((b[0] as nat % 4) * 16), '=', '=']
    } else if b.len() == 2 {
        seq![
            base64_char(b[0] as nat / 4),
            base64_char((b[0] as nat % 4) * 16 + b[1] as nat / 16),
            base64_char((b[1] as nat % 16) * 4),
            '=',
        ]
    } else {
        seq![
            base64_char(b[0] as nat / 4),
            base64_char((b[0] as nat % 4) * 16 + b[1] as nat / 16),
            base64_char((b[1] as nat % 16) * 4 + b[2] as nat / 64),
            base64_char(b[2] as nat % 64),
        ] + base64_standard(b.subrange(3, b.len() as int))
    }
}

/// The characters of each name and value of some pairs.
pub open spec fn pairs_view(s: Seq<(String, String)>) -> Seq<(Seq<char>, Seq<char>)> {
    Seq::new(s.len(), |i: int| (s[i].0@, s[i].1@))
}

/// Calls `url::form_urlencoded::parse` on the bytes of `query` and copies out each pair.
/// Claimed: the pairs depend on the query alone.
#[verifier::external_body]
fn parse_form(query: &str) -> (r: Vec<(String, String)>)
    ensures
        pairs_view(r@) == form_pairs(query@),
{
    let mut out: Vec<(String, String)> = Vec::new();
    for (k, v) in url::form_urlencoded::parse(query.as_bytes()) {
        out.push((k.into_owned(), v.into_owned()));
    }
    out
}

/// Calls `encode` of `base64::prelude::BASE64_STANDARD`. Claimed: the result is the
/// standard base64 encoding of the bytes, with padding.
#[verifier::external_body]
fn base64_encode(bytes: &[u8]) -> (r: String)
    ensures
        r@ == base64_standard(bytes@),
{
    base64::prelude::BASE64_STANDARD.encode(bytes)
}

/// The first index from `i` on of a member named `k`.
pub open spec fn key_index(ms: Seq<(Seq<char>, JsonModel)>, k: Seq<char>, i: int) -> Option<int>
    decreases ms.len() - i,
{
    if i < 0 || i >= ms.len() {
        None
    } else if ms[i].0 == k {
        Some(i)
    } else {
        key_index(ms, k, i + 1)
    }
}

/// The members of a JSON object of strings that holds the first `n` pairs as a map: a
/// later pair for a name replaces the value of an earlier one, in its place.
pub open spec fn string_members(pairs: Seq<(Seq<char>, Seq<char>)>, n: nat) -> Seq<(Seq<char>, JsonModel)>
    decreases n,
{
    if n == 0 || n > pairs.len() {
        Seq::empty()
    } else {
        let prev = string_members(pairs, (n - 1) as nat);
        let (k, v) = pairs[n - 1];
        match key_index(prev, k, 0) {
            Some(i) => prev.update(i, (k, JsonModel::String(v))),
            None => prev.push((k, JsonModel::String(v))),
        }
    }
}

/// The JSON object of strings that holds some pairs as a map.
pub open spec fn string_map_json(pairs: Seq<(Seq<char>, Seq<char>)>) -> JsonModel {
    JsonModel::Object(string_members(pairs, pairs.len()))
}

/// The first index of a member named `k`.
fn find_key(ms: &Vec<(String, Json)>, k: &str) -> (r: Option<usize>)
    ensures
        match r {
            Some(i) => key_index(members_model(ms@, ms@.len()), k@, 0) == Some(i as int) && i < ms@.len(),
            None => key_index(members_model(ms@, ms@.len()), k@, 0) is None,
        },
{
    let ghost mm = members_model(ms@, ms@.len());
    proof {
        lemma_members_model(ms@, ms@.len());
    }
    let mut i: usize = 0;
    while i < ms.len()
        invariant
            i <= ms.len(),
            mm == members_model(ms@, ms@.len()),
            mm.len() == ms@.len(),
            forall|j: int| 0 <= j < ms@.len() ==> #[trigger] mm[j] == (ms@[j].0@, crate::json::json_model(ms@[j].1)),
            key_index(mm, k@, 0) == key_index(mm, k@, i as int),
        decreases ms.len() - i,
    {
        if str_eq(ms[i].0.as_str(), k) {
            return Some(i);
        }
        i = i + 1;
    }
    None
}

/// The JSON object of strings that holds `pairs` as a map, a later pair for a name
/// replacing the value of an earlier one.
pub fn string_map(pairs: Vec<(String, String)>) -> (r: Json)
    ensures
        r@ == string_map_json(pairs_view(pairs@)),
{
    let ghost all = pairs@;
    let ghost pv = pairs_view(all);
    let mut rest = pairs;
    let mut out: Vec<(String, Json)> = Vec::new();
    let mut n: usize = 0;
    assert(all.len() == rest.len());
    while rest.len() > 0
        invariant
            n <= all.len(),
            all.len() <= usize::MAX,
            pv == pairs_view(all),
            rest@ == all.subrange(n as int, all.len() as int),
            members_model(out@, out@.len()) == string_members(pv, n as nat),
        decreases rest.len(),
    {
        let (k, v) = rest.remove(0);
        assert(all[n as int] == (k, v));
        assert(pv[n as int] == (k@, v@));
        let ghost before = out@;
        match find_key(&out, k.as_str()) {
            Some(i) => {
                out.set(i, (k, Json::String(v)));
                proof {
                    crate::json::lemma_members_model(before, before.len());
                    crate::json::lemma_members_model(out@, out@.len());
                    assert(members_model(out@, out@.len()) =~= string_members(pv, (n + 1) as nat));
                }
            },
            None => {
                out.push((k, Json::String(v)));
                proof {
                    crate::json::lemma_members_model(before, before.len());
                    crate::json::lemma_members_model(out@, out@.len());
                    assert(members_model(out@, out@.len()) =~= string_members(pv, (n + 1) as nat));
                }
            },
        }
        n = n + 1;
    }
    Json::Object(out)
}

/// The request that the echo service describes: method, path, query string, headers
/// (values that are not text given as `<non-utf8>`) and body.
pub struct EchoRequest {
    pub method: String,
    pub path: String,
    pub query: Option<String>,
    pub headers: Vec<(String, String)>,
    pub body: Vec<u8>,
}

/// The description of a request: its method and path, its query parameters and headers
/// as maps, and its body in base64.
pub open spec fn echo_json(
    method: Seq<char>,
    path: Seq<char>,
    query: Seq<(Seq<char>, Seq<char>)>,
    headers: Seq<(Seq<char>, Seq<char>)>,
    body: Seq<u8>,
) -> JsonModel {
    JsonModel::Object(
        seq![
            ("method"@, JsonModel::String(method)),
            ("path"@, JsonModel::String(path)),
            ("query"@, string_map_json(query)),
            ("headers"@, string_map_json(headers)),
            ("body"@, JsonModel::String(base64_standard(body))),
        ],
    )
}

/// The description that the echo service answers `req` with.
pub fn echo_response(req: EchoRequest) -> (r: Json)
    ensures
        r@ == echo_json(
            req.method@,
            req.path@,
            match req.query {
                Some(q) => form_pairs(q@),
                None => Seq::empty(),
            },
            pairs_view(req.headers@),
            req.body@,
        ),
{
    let body = base64_encode(req.body.as_slice());
    let query = match &req.query {
        Some(q) => parse_form(q.as_str()),
        None => Vec::new(),
    };
    proof {
        assert(pairs_view(query@) =~= match req.query {
            Some(q) => form_pairs(q@),
            None => Seq::<(Seq<char>, Seq<char>)>::empty(),
        });
    }
    let query_json = string_map(query);
    let headers_json = string_map(req.headers);
    let mut ms: Vec<(String, Json)> = Vec::new();
    assert(members_model(ms@, ms@.len()) =~= Seq::empty());
    push_member(&mut ms, "method", Json::String(req.method));
    push_member(&mut ms, "path", Json::String(req.path));
    push_member(&mut ms, "query", query_json);
    push_member(&mut ms, "headers", headers_json);
    push_member(&mut ms, "body", Json::String(body));
    proof {
        assert(members_model(ms@, ms@.len()) =~= seq![
            ("method"@, JsonModel::String(req.method@)),
            ("path"@, JsonModel::String(req.path@)),
            ("query"@, query_json@),
            ("headers"@, headers_json@),
            ("body"@, JsonModel::String(base64_standard(req.body@))),
        ]);
    }
    Json::Object(ms)
}

/// A message received on the echo service's WebSocket.
#[derive(Debug, PartialEq, Eq)]
pub enum WsFrame {
    Text(String),
    Binary(Vec<u8>),
    Close,
    /// Any other message, such as a ping.
    Other,
}

/// What the echo service does with a message received on its WebSocket.
#[derive(Debug, PartialEq, Eq)]
pub enum EchoStep {
    /// Send this text back.
    SendText(String),
    /// Send these bytes back.
    SendBinary(Vec<u8>),
    /// The client is gone: stop.
    Stop,
    /// Do nothing and wait for the next message.
    Ignore,
}

/// The echo service's answer to one WebSocket message: text comes back prefixed with
/// `Echo: `, bytes come back as they are, a close stops the exchange, anything else is
/// ignored.
pub fn echo_step(frame: WsFrame) -> (r: EchoStep)
    ensures
        match frame {
            WsFrame::Text(t) => r matches EchoStep::SendText(u) && u@ == "Echo: "@ + t@,
            WsFrame::Binary(b) => r == EchoStep::SendBinary(b),
            WsFrame::Close => r == EchoStep::Stop,
            WsFrame::Other => r == EchoStep::Ignore,
        },
{
    match frame {
        WsFrame::Text(t) => EchoStep::SendText(crate::text::concat2("Echo: ", t.as_str())),
        WsFrame::Binary(b) => EchoStep::SendBinary(b),
        WsFrame::Close => EchoStep::Stop,
        WsFrame::Other => EchoStep::Ignore,
    }
}

} // verus!
