//! Small string helpers shared by the policy engine and the message model.
use vstd::prelude::*;
use vstd::string::StringExecFns;
use vstd::string::StrSliceExecFns;

verus! {

/// Character-wise equality of two string slices.
pub fn str_eq(a: &str, b: &str) -> (r: bool)
    ensures
        r == (a@ == b@),
{
    let x: String = a.to_owned();
    let y: String = b.to_owned();
    x == y
}

/// A fresh `String` holding the characters of `s`.
pub fn owned(s: &str) -> (r: String)
    ensures
        r@ == s@,
{
    s.to_owned()
}

/// A copy of `s`.
pub fn copy_string(s: &String) -> (r: String)
    ensures
        r@ == s@,
{
    s.clone()
}

/// The concatenation of `a` and `b`.
pub fn concat2(a: &str, b: &str) -> (r: String)
    ensures
        r@ == a@ + b@,
{
    let mut r: String = a.to_owned();
    r.append(b);
    r
}

/// The concatenation of `a`, `b` and `c`.
pub fn concat3(a: &str, b: &str, c: &str) -> (r: String)
    ensures
        r@ == a@ + b@ + c@,
{
    let mut r: String = a.to_owned();
    r.append(b);
    r.append(c);
    r
}

/// A copy of an optional string.
pub fn copy_opt_string(s: &Option<String>) -> (r: Option<String>)
    ensures
        opt_str_view(*s) == opt_str_view(r),
{
    match s {
        Some(x) => Some(x.clone()),
        None => None,
    }
}

/// The characters of an optional string.
pub open spec fn opt_str_view(s: Option<String>) -> Option<Seq<char>> {
    match s {
        Some(x) => Some(x@),
        None => None,
    }
}

/// The characters of each string of a sequence.
pub open spec fn strs_view(s: Seq<String>) -> Seq<Seq<char>> {
    Seq::new(s.len(), |i: int| s[i]@)
}

/// The characters of each string of an optional list.
pub open spec fn opt_strs_view(s: Option<Vec<String>>) -> Option<Seq<Seq<char>>> {
    match s {
        Some(v) => Some(strs_view(v@)),
        None => None,
    }
}

/// A copy of a list of strings.
pub fn copy_strings(v: &Vec<String>) -> (r: Vec<String>)
    ensures
        strs_view(r@) == strs_view(v@),
{
    let mut r: Vec<String> = Vec::new();
    let mut i: usize = 0;
    while i < v.len()
        invariant
            i <= v.len(),
            r@.len() == i,
            forall|j: int| 0 <= j < i ==> #[trigger] r@[j]@ == v@[j]@,
        decreases v.len() - i,
    {
        r.push(v[i].clone());
        i = i + 1;
    }
    assert(strs_view(r@) =~= strs_view(v@));
    r
}

/// A copy of an optional list of strings.
pub fn copy_opt_strings(v: &Option<Vec<String>>) -> (r: Option<Vec<String>>)
    ensures
        opt_strs_view(r) == opt_strs_view(*v),
{
    match v {
        Some(x) => Some(copy_strings(x)),
        None => None,
    }
}

/// The decimal digit `d`.
pub open spec fn digit_char(d: nat) -> char {
    (48 + d) as char
}

/// The decimal notation of `n`, without leading zeros.
pub open spec fn decimal(n: nat) -> Seq<char>
    decreases n,
{
    if n < 10 {
        seq![digit_char(n)]
    } else {
        decimal(n / 10).push(digit_char(n % 10))
    }
}

/// The one-letter string of the decimal digit `d`.
fn digit_str(d: u16) -> (r: &'static str)
    requires
        d < 10,
    ensures
        r@ == seq![digit_char(d as nat)],
{
    match d {
        0 => {
            proof {
                reveal_strlit("0");
            }
            "0"
        },
        1 => {
            proof {
                reveal_strlit("1");
            }
            "1"
        },
        2 => {
            proof {
                reveal_strlit("2");
            }
            "2"
        },
        3 => {
            proof {
                reveal_strlit("3");
            }
            "3"
        },
        4 => {
            proof {
                reveal_strlit("4");
            }
            "4"
        },
        5 => {
            proof {
                reveal_strlit("5");
            }
            "5"
        },
        6 => {
            proof {
                reveal_strlit("6");
            }
            "6"
        },
        7 => {
            proof {
                reveal_strlit("7");
            }
            "7"
        },
        8 => {
            proof {
                reveal_strlit("8");
            }
            "8"
        },
        _ => {
            proof {
                reveal_strlit("9");
            }
            "9"
        },
    }
}

/// The decimal notation of `n`.
pub fn decimal_string(n: u16) -> (r: String)
    ensures
        r@ == decimal(n as nat),
    decreases n,
{
    if n < 10 {
        owned(digit_str(n))
    } else {
        let head = decimal_string(n / 10);
        let r = concat2(head.as_str(), digit_str(n % 10));
        proof {
            assert(r@ =~= decimal(n as nat));
        }
        r
    }
}

// ---------------------------------------------------------------------------
// Searching and replacing
// ---------------------------------------------------------------------------

/// `s` holds `pat` at index `i`.
pub open spec fn matches_at(s: Seq<char>, pat: Seq<char>, i: int) -> bool {
    0 <= i && i + pat.len() <= s.len() && s.subrange(i, i + pat.len()) == pat
}

/// `s` from index `i` on, with each occurrence of `pat` replaced by `rep`, left to
/// right and without overlaps.
pub open spec fn replaced_from(s: Seq<char>, pat: Seq<char>, rep: Seq<char>, i: int) -> Seq<char>
    decreases s.len() - i,
{
    if i < 0 || i >= s.len() {
        Seq::empty()
    } else if pat.len() > 0 && matches_at(s, pat, i) {
        rep + replaced_from(s, pat, rep, i + pat.len())
    } else {
        seq![s[i]] + replaced_from(s, pat, rep, i + 1)
    }
}

/// `s` from index `i` on with `rep` before each character and at the end: what
/// replacing the empty pattern gives.
pub open spec fn interleaved_from(s: Seq<char>, rep: Seq<char>, i: int) -> Seq<char>
    decreases s.len() - i,
{
    if i < 0 || i >= s.len() {
        rep
    } else {
        rep + seq![s[i]] + interleaved_from(s, rep, i + 1)
    }
}

/// `s` with each occurrence of `pat` replaced by `rep`, left to right and without
/// overlaps; the empty pattern occurs before each character and at the end.
pub open spec fn replace_all(s: Seq<char>, pat: Seq<char>, rep: Seq<char>) -> Seq<char> {
    if pat.len() == 0 {
        interleaved_from(s, rep, 0)
    } else {
        replaced_from(s, pat, rep, 0)
    }
}

/// `input` with every occurrence of `target` before the last one replaced by `replacement`.
pub open spec fn all_but_last_replaced(input: Seq<char>, target: Seq<char>, replacement: Seq<char>) -> Seq<char> {
    match last_match(input, target) {
        Some(k) => replace_all(input.subrange(0, k), target, replacement) + input.subrange(k, input.len() as int),
        None => input,
    }
}

/// The first index from `i` on at which `s` holds the character `c`.
pub open spec fn find_char_from(s: Seq<char>, c: char, i: int) -> Option<int>
    decreases s.len() - i,
{
    if i < 0 || i >= s.len() {
        None
    } else if s[i] == c {
        Some(i)
    } else {
        find_char_from(s, c, i + 1)
    }
}

/// The last index up to `i` at which `s` holds `pat`.
pub open spec fn last_match_upto(s: Seq<char>, pat: Seq<char>, i: int) -> Option<int>
    decreases i + 1,
{
    if i < 0 {
        None
    } else if matches_at(s, pat, i) {
        Some(i)
    } else {
        last_match_upto(s, pat, i - 1)
    }
}

/// The last index at which `s` holds `pat`.
pub open spec fn last_match(s: Seq<char>, pat: Seq<char>) -> Option<int> {
    last_match_upto(s, pat, s.len() as int)
}

/// The rest of `s` after the prefix `p`, where `s` starts with `p`.
pub fn strip_prefix<'a>(s: &'a str, p: &str) -> (r: Option<&'a str>)
    ensures
        match r {
            Some(rest) => matches_at(s@, p@, 0) && rest@ == s@.subrange(p@.len() as int, s@.len() as int),
            None => !matches_at(s@, p@, 0),
        },
{
    let n = s.unicode_len();
    let m = p.unicode_len();
    if m <= n && str_eq(s.substring_char(0, m), p) {
        Some(s.substring_char(m, n))
    } else {
        None
    }
}

/// The first index at which `s` holds the character `c`.
pub fn find_char(s: &str, c: char) -> (r: Option<usize>)
    ensures
        match r {
            Some(i) => find_char_from(s@, c, 0) == Some(i as int) && i < s@.len(),
            None => find_char_from(s@, c, 0) is None,
        },
{
    let n = s.unicode_len();
    let mut i: usize = 0;
    while i < n
        invariant
            i <= n,
            n == s@.len(),
            find_char_from(s@, c, 0) == find_char_from(s@, c, i as int),
        decreases n - i,
    {
        if s.get_char(i) == c {
            return Some(i);
        }
        i = i + 1;
    }
    None
}

/// The last index at which `s` holds `pat`.
pub fn rfind(s: &str, pat: &str) -> (r: Option<usize>)
    ensures
        match r {
            Some(i) => last_match(s@, pat@) == Some(i as int) && i <= s@.len(),
            None => last_match(s@, pat@) is None,
        },
{
    let n = s.unicode_len();
    let m = pat.unicode_len();
    let mut i: usize = n;
    loop
        invariant
            i <= n,
            n == s@.len(),
            m == pat@.len(),
            last_match(s@, pat@) == last_match_upto(s@, pat@, i as int),
        decreases i,
    {
        if m <= n - i && str_eq(s.substring_char(i, i + m), pat) {
            return Some(i);
        }
        if i == 0 {
            assert(last_match_upto(s@, pat@, -1) is None);
            return None;
        }
        i = i - 1;
    }
}

/// `s` with `rep` before each character and at the end.
fn interleave(s: &str, rep: &str) -> (r: String)
    ensures
        r@ == interleaved_from(s@, rep@, 0),
{
    let n = s.unicode_len();
    let mut out = String::new();
    let mut i: usize = 0;
    while i < n
        invariant
            i <= n,
            n == s@.len(),
            out@ + interleaved_from(s@, rep@, i as int) == interleaved_from(s@, rep@, 0),
        decreases n - i,
    {
        let next = concat3(out.as_str(), rep, s.substring_char(i, i + 1));
        proof {
            assert(s@.subrange(i as int, i + 1) =~= seq![s@[i as int]]);
            assert(next@ + interleaved_from(s@, rep@, i + 1) =~= out@ + interleaved_from(s@, rep@, i as int));
        }
        out = next;
        i = i + 1;
    }
    concat2(out.as_str(), rep)
}

/// `s` with each occurrence of `pat` replaced by `rep`, left to right and without
/// overlaps; the empty pattern occurs before each character and at the end.
pub fn replace(s: &str, pat: &str, rep: &str) -> (r: String)
    ensures
        r@ == replace_all(s@, pat@, rep@),
{
    let n = s.unicode_len();
    let m = pat.unicode_len();
    if m == 0 {
        return interleave(s, rep);
    }
    let mut out = String::new();
    let mut i: usize = 0;
    while i < n
        invariant
            i <= n,
            n == s@.len(),
            m == pat@.len(),
            m > 0,
            out@ + replaced_from(s@, pat@, rep@, i as int) == replace_all(s@, pat@, rep@),
        decreases n - i,
    {
        if m <= n - i && str_eq(s.substring_char(i, i + m), pat) {
            let next = concat2(out.as_str(), rep);
            proof {
                assert(next@ + replaced_from(s@, pat@, rep@, (i + m) as int) =~= out@ + replaced_from(s@, pat@, rep@, i as int));
            }
            out = next;
            i = i + m;
        } else {
            let next = concat2(out.as_str(), s.substring_char(i, i + 1));
            proof {
                assert(s@.subrange(i as int, i + 1) =~= seq![s@[i as int]]);
                assert(next@ + replaced_from(s@, pat@, rep@, i + 1) =~= out@ + replaced_from(s@, pat@, rep@, i as int));
            }
            out = next;
            i = i + 1;
        }
    }
    proof {
        assert(out@ =~= out@ + replaced_from(s@, pat@, rep@, i as int));
    }
    out
}

/// `input` with every occurrence of `target` before the last one replaced by
/// `replacement`; the last one and what follows it are kept as they are.
pub fn replace_all_but_last(input: &str, target: &str, replacement: &str) -> (r: String)
    ensures
        r@ == all_but_last_replaced(input@, target@, replacement@),
{
    match rfind(input, target) {
        Some(last) => {
            let n = input.unicode_len();
            let before = input.substring_char(0, last);
            let after = input.substring_char(last, n);
            let replaced = replace(before, target, replacement);
            concat2(replaced.as_str(), after)
        },
        None => owned(input),
    }
}
} // verus!
