//! The key pair of a connector: a P-256 secret key, written as PKCS#8 PEM for
//! configuration files and as a JSON web key.
use vstd::prelude::*;
use base64::Engine;
use p256::elliptic_curve::sec1::ToSec1Point;
use p256::elliptic_curve::Generate;
use p256::pkcs8::EncodePrivateKey;
use crate::json::{Json, JsonModel, members_model, push_member};
use crate::text::{all_but_last_replaced, replace_all_but_last};

verus! {

/// The PKCS#8 PEM text, with `\n` line endings, of the P-256 secret key whose scalar
/// has the bytes `d`, where they encode one (`SecretKey::from_slice`, then
/// `to_pkcs8_pem`).
pub uninterp spec fn pkcs8_pem_text(d: Seq<u8>) -> Option<Seq<char>>;

/// The coordinates `x` and `y` of the uncompressed public point of the P-256 secret key
/// whose scalar has the bytes `d`, where they encode one.
pub uninterp spec fn p256_public_xy(d: Seq<u8>) -> Option<(Seq<u8>, Seq<u8>)>;

/// Calls `p256::SecretKey::generate_from_rng` with `rand::rng()` and reads the scalar
/// with `to_bytes`. Claimed: the scalar has 32 bytes; which key it is rests on chance.
#[verifier::external_body]
fn random_secret() -> (d: Vec<u8>)
    ensures
        d@.len() == 32,
{
    p256::SecretKey::generate_from_rng(&mut rand::rng()).to_bytes().to_vec()
}

/// Calls `p256::SecretKey::from_slice` on `d` and `to_pkcs8_pem` with `\n` line
/// endings on the key. Claimed: the text depends on `d` alone, and there is none
/// exactly where the name gives none.
#[verifier::external_body]
fn pkcs8_pem(d: &[u8]) -> (r: Option<String>)
    ensures
        match r {
            Some(s) => pkcs8_pem_text(d@) == Some(s@),
            None => pkcs8_pem_text(d@) is None,
        },
{
    let key = match p256::SecretKey::from_slice(d) {
        Ok(k) => k,
        Err(_) => return None,
    };
    match key.to_pkcs8_pem(p256::pkcs8::LineEnding::LF) {
        Ok(pem) => Some(pem.as_str().to_owned()),
        Err(_) => None,
    }
}

/// Calls `p256::SecretKey::from_slice` on `d`, then `public_key` and
/// `to_sec1_point(false)`, and copies out the coordinates `x` and `y`. Claimed: they
/// depend on `d` alone, and there are none exactly where the name gives none.
#[verifier::external_body]
fn public_xy(d: &[u8]) -> (r: Option<(Vec<u8>, Vec<u8>)>)
    ensures
        match r {
            Some((x, y)) => p256_public_xy(d@) == Some((x@, y@)),
            None => p256_public_xy(d@) is None,
        },
{
    let key = match p256::SecretKey::from_slice(d) {
        Ok(k) => k,
        Err(_) => return None,
    };
    let point = key.public_key().to_sec1_point(false);
    match (point.x(), point.y()) {
        (Some(x), Some(y)) => Some((x.to_vec(), y.to_vec())),
        _ => None,
    }
}

/// The character of a six-bit value in the URL-safe base64 alphabet.
pub open spec fn base64url_char(v: nat) -> char {
    if v < 26 {
        (65 + v) as char
    } else if v < 52 {
        (71 + v) as char
    } else if v < 62 {
        (v - 4) as char
    } else if v == 62 {
        '-'
    } else {
        '_'
    }
}

/// URL-safe base64 without padding: each group of three bytes becomes four characters
/// of six bits each; a last group of one or two bytes becomes two or three characters.
pub open spec fn base64url_unpadded(b: Seq<u8>) -> Seq<char>
    decreases b.len(),
{
    if b.len() == 0 {
        Seq::empty()
    } else if b.len() == 1 {
        seq![base64url_char(b[0] as nat / 4), base64url_char((b[0] as nat % 4) * 16)]
    } else if b.len() == 2 {
        seq![
            base64url_char(b[0] as nat / 4),
            base64url_char((b[0] as nat % 4) * 16 + b[1] as nat / 16),
            base64url_char((b[1] as nat % 16) * 4),
        ]
    } else {
        seq![
            base64url_char(b[0] as nat / 4),
            base64url_char((b[0] as nat % 4) * 16 + b[1] as nat / 16),
            base64url_char((b[1] as nat % 16) * 4 + b[2] as nat / 64),
            base64url_char(b[2] as nat % 64),
        ] + base64url_unpadded(b.subrange(3, b.len() as int))
    }
}

/// Calls `encode` of `base64::engine::general_purpose::URL_SAFE_NO_PAD`. Claimed: the
/// result is the URL-safe base64 encoding of the bytes, without padding.
#[verifier::external_body]
fn base64url_encode(bytes: &[u8]) -> (r: String)
    ensures
        r@ == base64url_unpadded(bytes@),
{
    base64::engine::general_purpose::URL_SAFE_NO_PAD.encode(bytes)
}

/// The JSON web key of a P-256 key pair with public point (`x`, `y`) and secret scalar `d`.
pub open spec fn jwk_json(x: Seq<u8>, y: Seq<u8>, d: Seq<u8>) -> JsonModel {
    JsonModel::Object(
        seq![
            ("kty"@, JsonModel::String("EC"@)),
            ("crv"@, JsonModel::String("P-256"@)),
            ("x"@, JsonModel::String(base64url_unpadded(x))),
            ("y"@, JsonModel::String(base64url_unpadded(y))),
            ("d"@, JsonModel::String(base64url_unpadded(d))),
        ],
    )
}

/// What is printed of the key pair whose secret scalar has the bytes `secret`: its
/// PKCS#8 PEM text with every line break but the last written as the escape `\r\n`, and
/// its JSON web key; nothing where the bytes encode no key.
pub fn key_pair_printout(secret: &[u8]) -> (r: Option<(String, Json)>)
    requires
        secret@.len() == 32,
    ensures
        match (pkcs8_pem_text(secret@), p256_public_xy(secret@)) {
            (Some(pem), Some((x, y))) => r matches Some((p, j)) && p@ == all_but_last_replaced(pem, "\n"@, "\\r\\n"@)
                && j@ == jwk_json(x, y, secret@),
            _ => r is None,
        },
{
    let pem = match pkcs8_pem(secret) {
        Some(p) => p,
        None => return None,
    };
    let (x, y) = match public_xy(secret) {
        Some(xy) => xy,
        None => return None,
    };
    let printed = replace_all_but_last(pem.as_str(), "\n", "\\r\\n");
    let mut ms: Vec<(String, Json)> = Vec::new();
    assert(members_model(ms@, ms@.len()) =~= Seq::empty());
    push_member(&mut ms, "kty", Json::String(crate::text::owned("EC")));
    push_member(&mut ms, "crv", Json::String(crate::text::owned("P-256")));
    push_member(&mut ms, "x", Json::String(base64url_encode(x.as_slice())));
    push_member(&mut ms, "y", Json::String(base64url_encode(y.as_slice())));
    push_member(&mut ms, "d", Json::String(base64url_encode(secret)));
    proof {
        assert(members_model(ms@, ms@.len()) =~= seq![
            ("kty"@, JsonModel::String("EC"@)),
            ("crv"@, JsonModel::String("P-256"@)),
            ("x"@, JsonModel::String(base64url_unpadded(x@))),
            ("y"@, JsonModel::String(base64url_unpadded(y@))),
            ("d"@, JsonModel::String(base64url_unpadded(secret@))),
        ]);
    }
    Some((printed, Json::Object(ms)))
}

/// Generates a key pair and gives what is printed of it: for some 32-byte secret
/// scalar, chosen at random, the printout of that key, or nothing where no key could be
/// written.
pub fn generate_key_pair() -> (r: Option<(String, Json)>)
    ensures
        exists|d: Seq<u8>|
            d.len() == 32 && match (pkcs8_pem_text(d), p256_public_xy(d)) {
                (Some(pem), Some((x, y))) => r matches Some((p, j)) && p@ == all_but_last_replaced(pem, "\n"@, "\\r\\n"@)
                    && j@ == jwk_json(x, y, d),
                _ => r is None,
            },
{
    let secret = random_secret();
    key_pair_printout(secret.as_slice())
}

} // verus!
