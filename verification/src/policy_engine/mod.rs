//! Operand relations shared by negotiation and transfer checks.
pub mod negotiation;
pub mod transfer;

use vstd::prelude::*;
use vstd::string::StrSliceExecFns;
use crate::policy::{RightOperand, RightOperandModel};
use crate::text::str_eq;

verus! {

/// The Unicode lower-case mapping of a string (`str::to_lowercase`).
pub uninterp spec fn lowercase(s: Seq<char>) -> Seq<char>;

/// The instant that an RFC 3339 date-time denotes, as seconds since the Unix epoch
/// and nanoseconds within the second (`chrono::DateTime::parse_from_rfc3339`),
/// or `None` where the text is not an RFC 3339 date-time.
pub uninterp spec fn rfc3339_instant(s: Seq<char>) -> Option<(i64, u32)>;

/// Calls `str::to_lowercase`; the result is named by `lowercase`.
#[verifier::external_body]
fn to_lowercase(s: &str) -> (r: String)
    ensures
        r@ == lowercase(s@),
{
    s.to_lowercase()
}

/// Calls `chrono::DateTime::parse_from_rfc3339` and reads the parsed instant as
/// `(timestamp, timestamp_subsec_nanos)`; the result is named by `rfc3339_instant`.
#[verifier::external_body]
fn parse_rfc3339(s: &str) -> (r: Option<(i64, u32)>)
    ensures
        r == rfc3339_instant(s@),
{
    match chrono::DateTime::parse_from_rfc3339(s) {
        Ok(t) => Some((t.timestamp(), t.timestamp_subsec_nanos())),
        Err(_) => None,
    }
}

/// Whether a two-letter lower-case code names a member state of the European Union.
pub open spec fn eu_code(a: char, b: char) -> bool {
    ||| a == 'a' && b == 't'
    ||| a == 'b' && b == 'e'
    ||| a == 'b' && b == 'g'
    ||| a == 'h' && b == 'r'
    ||| a == 'c' && b == 'y'
    ||| a == 'c' && b == 'z'
    ||| a == 'd' && b == 'k'
    ||| a == 'e' && b == 'e'
    ||| a == 'f' && b == 'i'
    ||| a == 'f' && b == 'r'
    ||| a == 'd' && b == 'e'
    ||| a == 'g' && b == 'r'
    ||| a == 'h' && b == 'u'
    ||| a == 'i' && b == 'e'
    ||| a == 'i' && b == 't'
    ||| a == 'l' && b == 'v'
    ||| a == 'l' && b == 't'
    ||| a == 'l' && b == 'u'
    ||| a == 'm' && b == 't'
    ||| a == 'n' && b == 'l'
    ||| a == 'p' && b == 'l'
    ||| a == 'p' && b == 't'
    ||| a == 'r' && b == 'o'
    ||| a == 's' && b == 'k'
    ||| a == 's' && b == 'i'
    ||| a == 'e' && b == 's'
    ||| a == 's' && b == 'e'
}

/// Whether a string is the lower-case code of a member state of the European Union.
pub open spec fn eu_member(s: Seq<char>) -> bool {
    s.len() == 2 && eu_code(s[0], s[1])
}

/// `a` is a subclass of `b`: no subsumption, only the same literal.
pub open spec fn spec_is_subclass_of(a: RightOperandModel, b: RightOperandModel) -> bool {
    match (a, b) {
        (RightOperandModel::String(x), RightOperandModel::String(y)) => x == y,
        _ => false,
    }
}

/// `a` is part of `b` with respect to `property`: only the `spatial` property is
/// understood, where a member state is part of `_:EU` and every value part of itself.
pub open spec fn spec_is_part_of(property: Seq<char>, a: RightOperandModel, b: RightOperandModel) -> bool {
    if property == "spatial"@ {
        match (a, b) {
            (RightOperandModel::String(x), RightOperandModel::String(y)) =>
                (eu_member(lowercase(x)) && lowercase(y) == "_:eu"@) || x == y,
            _ => a == b,
        }
    } else {
        false
    }
}

/// Whether instant `a` comes before instant `b` (or equals it, where `eq`).
pub open spec fn instant_before(a: (i64, u32), b: (i64, u32), eq: bool) -> bool {
    a.0 < b.0 || (a.0 == b.0 && (if eq { a.1 <= b.1 } else { a.1 < b.1 }))
}

/// `a` is less than (or equal to, where `eq`) `b` with respect to `property`: only
/// the `temporal` property is understood, on RFC 3339 date-times.
pub open spec fn spec_lteq(property: Seq<char>, a: RightOperandModel, b: RightOperandModel, eq: bool) -> bool {
    match (a, b) {
        (RightOperandModel::String(x), RightOperandModel::String(y)) => property == "temporal"@
            && match (rfc3339_instant(x), rfc3339_instant(y)) {
            (Some(ta), Some(tb)) => instant_before(ta, tb, eq),
            _ => false,
        },
        _ => false,
    }
}

/// Whether `s` is the lower-case code of a member state of the European Union.
fn is_eu_member(s: &str) -> (r: bool)
    ensures
        r == eu_member(s@),
{
    if s.unicode_len() != 2 {
        return false;
    }
    let a = s.get_char(0);
    let b = s.get_char(1);
    match (a, b) {
        ('a', 't') | ('b', 'e') | ('b', 'g') | ('h', 'r') | ('c', 'y') | ('c', 'z') | ('d', 'k')
        | ('e', 'e') | ('f', 'i') | ('f', 'r') | ('d', 'e') | ('g', 'r') | ('h', 'u') | ('i', 'e')
        | ('i', 't') | ('l', 'v') | ('l', 't') | ('l', 'u') | ('m', 't') | ('n', 'l') | ('p', 'l')
        | ('p', 't') | ('r', 'o') | ('s', 'k') | ('s', 'i') | ('e', 's') | ('s', 'e') => true,
        _ => false,
    }
}

/// Whether `a` is a subclass of `b` (no subsumption: the same literal).
pub fn is_subclass_of(_property: &str, a: &RightOperand, b: &RightOperand) -> (r: bool)
    ensures
        r == spec_is_subclass_of(a@, b@),
{
    match (a, b) {
        (RightOperand::String(a), RightOperand::String(b)) => a.eq(b),
        _ => false,
    }
}

/// Whether `a` is part of `b` with respect to `property`.
pub fn is_part_of(property: &str, a: &RightOperand, b: &RightOperand) -> (r: bool)
    ensures
        r == spec_is_part_of(property@, a@, b@),
{
    if str_eq(property, "spatial") {
        match (a, b) {
            (RightOperand::String(x), RightOperand::String(y)) => {
                let lx = to_lowercase(x.as_str());
                let ly = to_lowercase(y.as_str());
                if is_eu_member(lx.as_str()) && str_eq(ly.as_str(), "_:eu") {
                    true
                } else {
                    x.eq(y)
                }
            },
            _ => a.same(b),
        }
    } else {
        false
    }
}

/// Whether `a` is less than (or equal to, where `eq`) `b` with respect to `property`.
pub fn lteq(property: &str, a: &RightOperand, b: &RightOperand, eq: bool) -> (r: bool)
    ensures
        r == spec_lteq(property@, a@, b@, eq),
{
    match (a, b) {
        (RightOperand::String(x), RightOperand::String(y)) => {
            if str_eq(property, "temporal") {
                match (parse_rfc3339(x.as_str()), parse_rfc3339(y.as_str())) {
                    (Some(ta), Some(tb)) => {
                        if eq {
                            ta.0 < tb.0 || (ta.0 == tb.0 && ta.1 <= tb.1)
                        } else {
                            ta.0 < tb.0 || (ta.0 == tb.0 && ta.1 < tb.1)
                        }
                    },
                    _ => false,
                }
            } else {
                false
            }
        },
        _ => false,
    }
}

} // verus!
