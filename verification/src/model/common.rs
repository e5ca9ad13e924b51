//! JSON-LD building blocks shared by all messages: the `@context`, the `@type`
//! and resource references.
use vstd::prelude::*;
use crate::text::{owned, str_eq};
use crate::json::{
    Json, JsonError, JsonModel, json_model, json_list_model, members_model, lemma_json_list_model, lemma_members_model, member,
    req_str, get_member, get_str, push_member,
};

verus! {

broadcast use vstd::std_specs::vec::group_vec_axioms;

/// The JSON-LD context of the dataspace protocol.
pub const CONTEXT: &'static str = "https://w3id.org/dspace/2025/1/context.jsonld";

/// One entry of a JSON-LD context: an IRI or a map of term definitions.
#[derive(Debug, PartialEq)]
pub enum ContextEntry {
    Iri(String),
    TermMap(Vec<(String, ContextEntry)>),
}

/// A JSON-LD context: one entry or a list of entries.
#[derive(Debug, PartialEq)]
pub enum Context {
    Single(ContextEntry),
    Array(Vec<ContextEntry>),
}

/// The `@context` member of a JSON-LD document.
#[derive(Debug, PartialEq)]
pub struct JsonLDContext {
    pub context: Context,
}

// ---------------------------------------------------------------------------
// Equality of context entries: the same IRI, or maps with the same terms
// bound to equal entries.
// ---------------------------------------------------------------------------

/// Two context entries are equal.
pub open spec fn entry_eq(a: ContextEntry, b: ContextEntry) -> bool
    decreases a, b, 0int,
{
    match (a, b) {
        (ContextEntry::Iri(x), ContextEntry::Iri(y)) => x@ == y@,
        (ContextEntry::TermMap(xs), ContextEntry::TermMap(ys)) => xs@.len() == ys@.len() && all_terms_found(
            xs@,
            ys@,
            0,
        ),
        _ => false,
    }
}

/// Every term of `xs` from index `i` on is bound in `ys` to an equal entry.
pub open spec fn all_terms_found(xs: Seq<(String, ContextEntry)>, ys: Seq<(String, ContextEntry)>, i: int) -> bool
    decreases xs, ys, xs.len() - i,
{
    if i < 0 || i >= xs.len() {
        true
    } else {
        term_found(xs[i].0@, xs[i].1, ys, 0) && all_terms_found(xs, ys, i + 1)
    }
}

/// Term `k` is bound to an entry equal to `v` in `ys`, from index `j` on.
pub open spec fn term_found(k: Seq<char>, v: ContextEntry, ys: Seq<(String, ContextEntry)>, j: int) -> bool
    decreases v, ys, ys.len() - j,
{
    if j < 0 || j >= ys.len() {
        false
    } else {
        (ys[j].0@ == k && entry_eq(v, ys[j].1)) || term_found(k, v, ys, j + 1)
    }
}

/// Whether two context entries are equal.
pub fn entry_equal(a: &ContextEntry, b: &ContextEntry) -> (r: bool)
    ensures
        r == entry_eq(*a, *b),
    decreases a, b, 0nat,
{
    match (a, b) {
        (ContextEntry::Iri(x), ContextEntry::Iri(y)) => x.eq(y),
        (ContextEntry::TermMap(xs), ContextEntry::TermMap(ys)) => xs.len() == ys.len() && all_terms_found_exec(xs, ys),
        _ => false,
    }
}

/// Whether every term of `xs` is bound in `ys` to an equal entry.
fn all_terms_found_exec(xs: &Vec<(String, ContextEntry)>, ys: &Vec<(String, ContextEntry)>) -> (r: bool)
    ensures
        r == all_terms_found(xs@, ys@, 0),
    decreases xs, ys, 2nat,
{
    let mut i: usize = 0;
    while i < xs.len()
        invariant
            i <= xs.len(),
            all_terms_found(xs@, ys@, 0) == all_terms_found(xs@, ys@, i as int),
        decreases xs.len() - i,
    {
        proof {
            assert(decreases_to!(*xs => xs[i as int]));
            assert(decreases_to!(xs[i as int] => xs[i as int].1));
        }
        let (k, v) = &xs[i];
        if !term_found_exec(k.as_str(), v, ys) {
            return false;
        }
        i = i + 1;
    }
    true
}

/// Whether term `k` is bound in `ys` to an entry equal to `v`.
fn term_found_exec(k: &str, v: &ContextEntry, ys: &Vec<(String, ContextEntry)>) -> (r: bool)
    ensures
        r == term_found(k@, *v, ys@, 0),
    decreases v, ys, 1nat,
{
    let mut j: usize = 0;
    while j < ys.len()
        invariant
            j <= ys.len(),
            term_found(k@, *v, ys@, 0) == term_found(k@, *v, ys@, j as int),
        decreases ys.len() - j,
    {
        proof {
            assert(decreases_to!(*ys => ys[j as int]));
            assert(decreases_to!(ys[j as int] => ys[j as int].1));
        }
        let (k2, v2) = &ys[j];
        if str_eq(k2.as_str(), k) && entry_equal(v, v2) {
            return true;
        }
        j = j + 1;
    }
    false
}

// ---------------------------------------------------------------------------
// Union of contexts
// ---------------------------------------------------------------------------

/// The entries of a context.
pub open spec fn context_entries(c: Context) -> Seq<ContextEntry> {
    match c {
        Context::Single(e) => seq![e],
        Context::Array(v) => v@,
    }
}

/// The entries of the first `n` contexts of `others`, in order.
pub open spec fn contexts_entries(others: Seq<JsonLDContext>, n: nat) -> Seq<ContextEntry>
    decreases n,
{
    if n == 0 || n > others.len() {
        Seq::empty()
    } else {
        contexts_entries(others, (n - 1) as nat) + context_entries(others[n - 1].context)
    }
}

/// Some entry of `d` equals `e`.
pub open spec fn contains_eq(d: Seq<ContextEntry>, e: ContextEntry) -> bool {
    exists|i: int| 0 <= i < d.len() && #[trigger] entry_eq(d[i], e)
}

/// The first `n` entries of `s` without those equal to an entry kept before them.
pub open spec fn dedup(s: Seq<ContextEntry>, n: nat) -> Seq<ContextEntry>
    decreases n,
{
    if n == 0 || n > s.len() {
        Seq::empty()
    } else {
        let d = dedup(s, (n - 1) as nat);
        if contains_eq(d, s[n - 1]) {
            d
        } else {
            d.push(s[n - 1])
        }
    }
}

/// The entries that a union of `first` with `others` keeps.
pub open spec fn union_entries(first: Context, others: Seq<JsonLDContext>) -> Seq<ContextEntry> {
    let all = context_entries(first) + contexts_entries(others, others.len());
    dedup(all, all.len())
}

impl Default for JsonLDContext {
    /// The context of the dataspace protocol.
    fn default() -> (r: JsonLDContext)
        ensures
            r.context matches Context::Array(v) && v@ == seq![ContextEntry::Iri(v@[0]->Iri_0)]
                && v@[0]->Iri_0@ == CONTEXT@,
            context_json(r.context) == default_context_json(),
            context_wf(r.context),
    {
        let mut v: Vec<ContextEntry> = Vec::new();
        v.push(ContextEntry::Iri(owned(CONTEXT)));
        proof {
            reveal_with_fuel(entries_json, 2);
            assert(entries_json(v@, 1) =~= seq![JsonModel::String(CONTEXT@)]);
            reveal_with_fuel(entry_items_ok, 2);
        }
        JsonLDContext { context: Context::Array(v) }
    }
}

/// Whether some entry of `d` equals `e`.
fn contains_entry(d: &Vec<ContextEntry>, e: &ContextEntry) -> (r: bool)
    ensures
        r == contains_eq(d@, *e),
{
    let mut i: usize = 0;
    while i < d.len()
        invariant
            i <= d.len(),
            forall|k: int| 0 <= k < i ==> !#[trigger] entry_eq(d@[k], *e),
        decreases d.len() - i,
    {
        if entry_equal(&d[i], e) {
            return true;
        }
        i = i + 1;
    }
    false
}

/// The entries of a context, as a list.
fn into_entries(c: Context) -> (r: Vec<ContextEntry>)
    ensures
        r@ == context_entries(c),
{
    match c {
        Context::Single(e) => {
            let mut v: Vec<ContextEntry> = Vec::new();
            v.push(e);
            v
        },
        Context::Array(v) => v,
    }
}

impl JsonLDContext {
    /// The union of this context with `others`: all their entries in order, each
    /// entry equal to an earlier one left out.
    pub fn union(self, others: Vec<Self>) -> (r: Self)
        ensures
            r.context matches Context::Array(v) && v@ == union_entries(self.context, others@),
    {
        let ghost first = self.context;
        let ghost all_others = others@;
        let mut all_entries = into_entries(self.context);
        let mut others = others;
        let mut n: usize = 0;
        assert(all_others.len() == others.len());
        while others.len() > 0
            invariant
                n <= all_others.len(),
                all_others.len() <= usize::MAX,
                others@ == all_others.subrange(n as int, all_others.len() as int),
                all_entries@ == context_entries(first) + contexts_entries(all_others, n as nat),
            decreases others.len(),
        {
            let other = others.remove(0);
            let mut other_entries = into_entries(other.context);
            all_entries.append(&mut other_entries);
            proof {
                assert(all_others[n as int] == other);
                assert(context_entries(first) + contexts_entries(all_others, (n + 1) as nat) =~= context_entries(first)
                    + contexts_entries(all_others, n as nat) + context_entries(other.context));
            }
            n = n + 1;
        }
        proof {
            assert(n == all_others.len());
        }
        let ghost all = all_entries@;
        let mut unique_entries: Vec<ContextEntry> = Vec::new();
        let mut p: usize = 0;
        assert(all.len() == all_entries.len());
        while all_entries.len() > 0
            invariant
                p <= all.len(),
                all.len() <= usize::MAX,
                all_entries@ == all.subrange(p as int, all.len() as int),
                unique_entries@ == dedup(all, p as nat),
            decreases all_entries.len(),
        {
            let entry = all_entries.remove(0);
            assert(all[p as int] == entry);
            if !contains_entry(&unique_entries, &entry) {
                unique_entries.push(entry);
            }
            p = p + 1;
        }
        JsonLDContext { context: Context::Array(unique_entries) }
    }
}

proof fn lemma_dedup_prefix(s: Seq<ContextEntry>, a: nat, b: nat)
    requires
        a <= b <= s.len(),
    ensures
        dedup(s, a).len() <= dedup(s, b).len(),
        forall|i: int| 0 <= i < dedup(s, a).len() ==> #[trigger] dedup(s, b)[i] == dedup(s, a)[i],
    decreases b,
{
    if a < b {
        lemma_dedup_prefix(s, a, (b - 1) as nat);
    }
}

proof fn lemma_dedup_props(s: Seq<ContextEntry>, n: nat) -> (idx: Seq<int>)
    requires
        n <= s.len(),
    ensures
        idx.len() == dedup(s, n).len(),
        forall|i: int| 0 <= i < idx.len() ==> 0 <= #[trigger] idx[i] < n && s[idx[i]] == dedup(s, n)[i],
        forall|i: int, j: int| 0 <= i < j < idx.len() ==> idx[i] < idx[j],
        forall|i: int, j: int| 0 <= i < j < dedup(s, n).len() ==> !entry_eq(#[trigger] dedup(s, n)[i], #[trigger] dedup(s, n)[j]),
        forall|k: int| 0 <= k < n ==> contains_eq(dedup(s, n), #[trigger] s[k]),
    decreases n,
{
    if n == 0 {
        Seq::empty()
    } else {
        let prev = lemma_dedup_props(s, (n - 1) as nat);
        let d = dedup(s, (n - 1) as nat);
        assert forall|k: int| 0 <= k < n implies contains_eq(dedup(s, n), #[trigger] s[k]) by {
            if k < n - 1 {
                assert(contains_eq(d, s[k]));
                let w = choose|w: int| 0 <= w < d.len() && #[trigger] entry_eq(d[w], s[k]);
                lemma_dedup_prefix(s, (n - 1) as nat, n);
                assert(entry_eq(dedup(s, n)[w], s[k]));
            } else if contains_eq(d, s[k]) {
            } else {
                let last = (dedup(s, n).len() - 1) as int;
                assert(dedup(s, n)[last] == s[k]);
                lemma_entry_eq_refl(s[k]);
                assert(entry_eq(dedup(s, n)[last], s[k]));
            }
        }
        if contains_eq(d, s[n - 1]) {
            prev
        } else {
            let idx = prev.push(n - 1);
            assert forall|i: int, j: int| 0 <= i < j < dedup(s, n).len() implies !entry_eq(#[trigger] dedup(s, n)[i], #[trigger] dedup(s, n)[j]) by {
                if j == d.len() {
                    assert(dedup(s, n)[i] == d[i]);
                    assert(!entry_eq(d[i], s[n - 1]));
                } else {
                    assert(dedup(s, n)[i] == d[i]);
                    assert(dedup(s, n)[j] == d[j]);
                }
            }
            idx
        }
    }
}

/// The names of the terms that a map defines, in order.
pub open spec fn term_names(v: Seq<(String, ContextEntry)>) -> Seq<Seq<char>> {
    Seq::new(v.len(), |i: int| v[i].0@)
}

proof fn lemma_term_found_named(k: Seq<char>, x: ContextEntry, ys: Seq<(String, ContextEntry)>, j: int)
    requires
        term_found(k, x, ys, j),
    ensures
        exists|m: int| j <= m < ys.len() && #[trigger] ys[m].0@ == k,
    decreases ys.len() - j,
{
    if 0 <= j < ys.len() && !(ys[j].0@ == k && entry_eq(x, ys[j].1)) {
        lemma_term_found_named(k, x, ys, j + 1);
    }
}

proof fn lemma_all_terms_found_each(xs: Seq<(String, ContextEntry)>, ys: Seq<(String, ContextEntry)>, i: int)
    requires
        0 <= i,
        all_terms_found(xs, ys, i),
    ensures
        forall|k: int| i <= k < xs.len() ==> term_found(#[trigger] xs[k].0@, xs[k].1, ys, 0),
    decreases xs.len() - i,
{
    if i < xs.len() {
        lemma_all_terms_found_each(xs, ys, i + 1);
    }
}

/// Two maps of terms, each naming every term once, are equal entries only where they
/// define the same terms: a map with a term that the other lacks is never equal to it.
pub proof fn equal_maps_define_the_same_terms(xs: Vec<(String, ContextEntry)>, ys: Vec<(String, ContextEntry)>)
    requires
        term_names(xs@).no_duplicates(),
        term_names(ys@).no_duplicates(),
        entry_eq(ContextEntry::TermMap(xs), ContextEntry::TermMap(ys)),
    ensures
        term_names(xs@).to_set() == term_names(ys@).to_set(),
{
    broadcast use vstd::seq_lib::seq_to_set_is_finite;
    let nx = term_names(xs@);
    let ny = term_names(ys@);
    lemma_all_terms_found_each(xs@, ys@, 0);
    assert forall|n: Seq<char>| nx.to_set().contains(n) implies ny.to_set().contains(n) by {
        let i = choose|i: int| 0 <= i < nx.len() && nx[i] == n;
        assert(term_found(xs@[i].0@, xs@[i].1, ys@, 0));
        lemma_term_found_named(xs@[i].0@, xs@[i].1, ys@, 0);
        let m = choose|m: int| 0 <= m < ys@.len() && #[trigger] ys@[m].0@ == n;
        assert(ny[m] == n);
    }
    nx.unique_seq_to_set();
    ny.unique_seq_to_set();
    vstd::set_lib::lemma_subset_equality(nx.to_set(), ny.to_set());
}

/// Every context entry is equal to itself.
pub proof fn lemma_entry_eq_refl(e: ContextEntry)
    ensures
        entry_eq(e, e),
    decreases e,
{
    match e {
        ContextEntry::Iri(_) => {},
        ContextEntry::TermMap(v) => {
            assert forall|i: int| 0 <= i < v@.len() implies term_found(v@[i].0@, v@[i].1, v@, 0) by {
                assert(decreases_to!(e => v));
                assert(decreases_to!(v => v@));
                assert(decreases_to!(v@ => v@[i]));
                assert(decreases_to!(v@[i] => v@[i].1));
                lemma_entry_eq_refl(v@[i].1);
                lemma_term_found_at(v@[i].0@, v@[i].1, v@, 0, i);
            }
            lemma_all_terms_found(v@, v@, 0);
        },
    }
}

proof fn lemma_term_found_at(k: Seq<char>, x: ContextEntry, ys: Seq<(String, ContextEntry)>, j: int, i: int)
    requires
        0 <= j <= i < ys.len(),
        ys[i].0@ == k,
        entry_eq(x, ys[i].1),
    ensures
        term_found(k, x, ys, j),
    decreases i - j,
{
    if j < i {
        lemma_term_found_at(k, x, ys, j + 1, i);
    }
}

proof fn lemma_all_terms_found(xs: Seq<(String, ContextEntry)>, ys: Seq<(String, ContextEntry)>, i: int)
    requires
        0 <= i <= xs.len(),
        forall|k: int| i <= k < xs.len() ==> term_found(#[trigger] xs[k].0@, xs[k].1, ys, 0),
    ensures
        all_terms_found(xs, ys, i),
    decreases xs.len() - i,
{
    if i < xs.len() {
        lemma_all_terms_found(xs, ys, i + 1);
    }
}

/// The union of contexts keeps no two equal entries: no entry it keeps equals an entry
/// kept before it.
pub proof fn union_keeps_no_duplicates(first: Context, others: Seq<JsonLDContext>)
    ensures
        forall|i: int, j: int|
            0 <= i < j < union_entries(first, others).len() ==> !entry_eq(
                #[trigger] union_entries(first, others)[i],
                #[trigger] union_entries(first, others)[j],
            ),
{
    let all = context_entries(first) + contexts_entries(others, others.len());
    let _ = lemma_dedup_props(all, all.len());
}

/// The union of contexts loses no entry: every entry of every context given is equal
/// to an entry that the union keeps.
pub proof fn union_loses_no_entry(first: Context, others: Seq<JsonLDContext>)
    ensures
        forall|k: int| 0 <= k < context_entries(first).len() ==> contains_eq(union_entries(first, others), #[trigger] context_entries(first)[k]),
        forall|c: int, k: int| 0 <= c < others.len() && 0 <= k < context_entries(others[c].context).len()
            ==> contains_eq(union_entries(first, others), #[trigger] context_entries(others[c].context)[k]),
{
    let f = context_entries(first);
    let all = f + contexts_entries(others, others.len());
    let _ = lemma_dedup_props(all, all.len());
    assert forall|k: int| 0 <= k < f.len() implies contains_eq(union_entries(first, others), #[trigger] f[k]) by {
        assert(all[k] == f[k]);
    }
    assert forall|c: int, k: int| 0 <= c < others.len() && 0 <= k < context_entries(others[c].context).len()
        implies contains_eq(union_entries(first, others), #[trigger] context_entries(others[c].context)[k]) by {
        let off = lemma_contexts_entries_at(others, others.len(), c, k);
        assert(all[f.len() + off] == context_entries(others[c].context)[k]);
    }
}

/// The union of well-formed contexts keeps only well-formed entries: no map it keeps
/// names a term twice.
pub proof fn union_keeps_entries_well_formed(first: Context, others: Seq<JsonLDContext>)
    requires
        forall|k: int| 0 <= k < context_entries(first).len() ==> entry_wf(#[trigger] context_entries(first)[k]),
        forall|c: int, k: int| 0 <= c < others.len() && 0 <= k < context_entries(others[c].context).len()
            ==> entry_wf(#[trigger] context_entries(others[c].context)[k]),
    ensures
        forall|i: int| 0 <= i < union_entries(first, others).len() ==> entry_wf(#[trigger] union_entries(first, others)[i]),
{
    let f = context_entries(first);
    let all = f + contexts_entries(others, others.len());
    let idx = union_keeps_inputs_in_order(first, others);
    assert forall|i: int| 0 <= i < union_entries(first, others).len() implies entry_wf(#[trigger] union_entries(first, others)[i]) by {
        let k = idx[i];
        if k < f.len() {
            assert(all[k] == f[k]);
        } else {
            lemma_contexts_entries_from(others, others.len(), k - f.len());
            assert(all[k] == contexts_entries(others, others.len())[k - f.len()]);
        }
    }
}

proof fn lemma_contexts_entries_from(others: Seq<JsonLDContext>, n: nat, off: int)
    requires
        n <= others.len(),
        0 <= off < contexts_entries(others, n).len(),
    ensures
        exists|c: int, k: int| 0 <= c < n && 0 <= k < context_entries(others[c].context).len()
            && contexts_entries(others, n)[off] == #[trigger] context_entries(others[c].context)[k],
    decreases n,
{
    let prev = contexts_entries(others, (n - 1) as nat);
    if off < prev.len() {
        lemma_contexts_entries_from(others, (n - 1) as nat, off);
    } else {
        let k = off - prev.len();
        assert(contexts_entries(others, n)[off] == context_entries(others[n - 1].context)[k]);
    }
}

proof fn lemma_contexts_entries_at(others: Seq<JsonLDContext>, n: nat, c: int, k: int) -> (off: int)
    requires
        n <= others.len(),
        0 <= c < n,
        0 <= k < context_entries(others[c].context).len(),
    ensures
        0 <= off < contexts_entries(others, n).len(),
        contexts_entries(others, n)[off] == context_entries(others[c].context)[k],
    decreases n,
{
    if c == n - 1 {
        contexts_entries(others, (n - 1) as nat).len() + k
    } else {
        let off = lemma_contexts_entries_at(others, (n - 1) as nat, c, k);
        off
    }
}

/// The union keeps entries of the contexts given, in the order in which they come: the
/// `i`-th kept entry is the `idx[i]`-th of all entries, for increasing indices `idx`.
pub proof fn union_keeps_inputs_in_order(first: Context, others: Seq<JsonLDContext>) -> (idx: Seq<int>)
    ensures
        idx.len() == union_entries(first, others).len(),
        forall|i: int| 0 <= i < idx.len() ==> 0 <= #[trigger] idx[i] < (context_entries(first) + contexts_entries(others, others.len())).len()
            && (context_entries(first) + contexts_entries(others, others.len()))[idx[i]] == union_entries(first, others)[i],
        forall|i: int, j: int| 0 <= i < j < idx.len() ==> idx[i] < idx[j],
{
    let all = context_entries(first) + contexts_entries(others, others.len());
    lemma_dedup_props(all, all.len())
}

// ---------------------------------------------------------------------------
// JSON form of contexts
// ---------------------------------------------------------------------------

/// The JSON form of a context entry: an IRI is a string, a map of terms an object.
pub open spec fn entry_json(e: ContextEntry) -> JsonModel
    decreases e, 0nat,
{
    match e {
        ContextEntry::Iri(s) => JsonModel::String(s@),
        ContextEntry::TermMap(v) => JsonModel::Object(terms_json(v@, v@.len())),
    }
}

/// The JSON members of the first `n` term definitions of `s`.
pub open spec fn terms_json(s: Seq<(String, ContextEntry)>, n: nat) -> Seq<(Seq<char>, JsonModel)>
    decreases s, n,
{
    if n == 0 || n > s.len() {
        Seq::empty()
    } else {
        terms_json(s, (n - 1) as nat).push((s[n - 1].0@, entry_json(s[n - 1].1)))
    }
}

/// The JSON forms of the first `n` entries of `s`.
pub open spec fn entries_json(s: Seq<ContextEntry>, n: nat) -> Seq<JsonModel>
    decreases s, n,
{
    if n == 0 || n > s.len() {
        Seq::empty()
    } else {
        entries_json(s, (n - 1) as nat).push(entry_json(s[n - 1]))
    }
}

/// The JSON form of a context: one entry, or an array of entries.
pub open spec fn context_json(c: Context) -> JsonModel {
    match c {
        Context::Single(e) => entry_json(e),
        Context::Array(v) => JsonModel::Array(entries_json(v@, v@.len())),
    }
}

/// No two members of `ms` have the same name.
pub open spec fn names_distinct(ms: Seq<(Seq<char>, JsonModel)>) -> bool {
    forall|i: int, j: int| 0 <= i < j < ms.len() ==> (#[trigger] ms[i]).0 != (#[trigger] ms[j]).0
}

/// A JSON value that reads as a context entry: a string, or an object that names no
/// term twice and whose members all read as context entries.
pub open spec fn is_entry_json(j: JsonModel) -> bool
    decreases j, 0nat,
{
    match j {
        JsonModel::String(_) => true,
        JsonModel::Object(ms) => names_distinct(ms) && entry_members_ok(ms, ms.len()),
        _ => false,
    }
}

/// The first `n` members of `ms` all read as context entries.
pub open spec fn entry_members_ok(ms: Seq<(Seq<char>, JsonModel)>, n: nat) -> bool
    decreases ms, n,
{
    if n == 0 || n > ms.len() {
        true
    } else {
        entry_members_ok(ms, (n - 1) as nat) && is_entry_json(ms[n - 1].1)
    }
}

/// The first `n` values of `items` all read as context entries.
pub open spec fn entry_items_ok(items: Seq<JsonModel>, n: nat) -> bool
    decreases n,
{
    if n == 0 || n > items.len() {
        true
    } else {
        entry_items_ok(items, (n - 1) as nat) && is_entry_json(items[n - 1])
    }
}

/// A JSON value that reads as a context: an array of entries, or one entry.
pub open spec fn is_context_json(j: JsonModel) -> bool {
    match j {
        JsonModel::Array(items) => entry_items_ok(items, items.len()),
        _ => is_entry_json(j),
    }
}

proof fn lemma_terms_json(s: Seq<(String, ContextEntry)>, n: nat)
    requires
        n <= s.len(),
    ensures
        terms_json(s, n).len() == n,
        forall|j: int| 0 <= j < n ==> #[trigger] terms_json(s, n)[j] == (s[j].0@, entry_json(s[j].1)),
    decreases n,
{
    if n > 0 {
        lemma_terms_json(s, (n - 1) as nat);
    }
}

proof fn lemma_entries_json(s: Seq<ContextEntry>, n: nat)
    requires
        n <= s.len(),
    ensures
        entries_json(s, n).len() == n,
        forall|j: int| 0 <= j < n ==> #[trigger] entries_json(s, n)[j] == entry_json(s[j]),
    decreases n,
{
    if n > 0 {
        lemma_entries_json(s, (n - 1) as nat);
    }
}

proof fn lemma_entry_members_ok(ms: Seq<(Seq<char>, JsonModel)>, n: nat)
    requires
        n <= ms.len(),
    ensures
        entry_members_ok(ms, n) <==> forall|j: int| 0 <= j < n ==> is_entry_json(#[trigger] ms[j].1),
    decreases n,
{
    if n > 0 {
        lemma_entry_members_ok(ms, (n - 1) as nat);
    }
}

proof fn lemma_entry_items_ok(items: Seq<JsonModel>, n: nat)
    requires
        n <= items.len(),
    ensures
        entry_items_ok(items, n) <==> forall|j: int| 0 <= j < n ==> is_entry_json(#[trigger] items[j]),
    decreases n,
{
    if n > 0 {
        lemma_entry_items_ok(items, (n - 1) as nat);
    }
}

/// A well-formed context entry: its JSON form reads back as an entry, that is, no map
/// in it names a term twice.
pub open spec fn entry_wf(e: ContextEntry) -> bool {
    is_entry_json(entry_json(e))
}

/// A well-formed context: its JSON form reads back as a context, that is, no map in
/// it names a term twice.
pub open spec fn context_wf(c: Context) -> bool {
    is_context_json(context_json(c))
}

/// The JSON members of some term definitions.
fn terms_to_json(v: &Vec<(String, ContextEntry)>) -> (out: Vec<(String, Json)>)
    ensures
        members_model(out@, out@.len()) == terms_json(v@, v@.len()),
    decreases v, 0nat,
{
    let mut out: Vec<(String, Json)> = Vec::new();
    let mut i: usize = 0;
    while i < v.len()
        invariant
            i <= v.len(),
            out@.len() == i,
            forall|j: int| 0 <= j < i ==> (#[trigger] out@[j]).0@ == v@[j].0@ && json_model(out@[j].1) == entry_json(v@[j].1),
        decreases v.len() - i,
    {
        proof {
            assert(decreases_to!(*v => v@[i as int]));
            assert(decreases_to!(v@[i as int] => v@[i as int].1));
        }
        let (k, e) = &v[i];
        let ej = e.to_json();
        out.push((k.clone(), ej));
        i = i + 1;
    }
    proof {
        lemma_members_model(out@, out@.len());
        lemma_terms_json(v@, v@.len());
        assert(members_model(out@, out@.len()) =~= terms_json(v@, v@.len()));
    }
    out
}

/// Whether no two members of `ms` have the same name.
fn names_are_distinct(ms: &Vec<(String, Json)>) -> (r: bool)
    ensures
        r == names_distinct(members_model(ms@, ms@.len())),
{
    let ghost mm = members_model(ms@, ms@.len());
    proof {
        lemma_members_model(ms@, ms@.len());
    }
    let mut j: usize = 0;
    while j < ms.len()
        invariant
            j <= ms.len(),
            mm == members_model(ms@, ms@.len()),
            mm.len() == ms@.len(),
            forall|k: int| 0 <= k < ms@.len() ==> #[trigger] mm[k] == (ms@[k].0@, json_model(ms@[k].1)),
            forall|a: int, b: int| 0 <= a < b < j ==> (#[trigger] mm[a]).0 != (#[trigger] mm[b]).0,
        decreases ms.len() - j,
    {
        let mut i: usize = 0;
        while i < j
            invariant
                i <= j < ms.len(),
                mm == members_model(ms@, ms@.len()),
                mm.len() == ms@.len(),
                forall|k: int| 0 <= k < ms@.len() ==> #[trigger] mm[k] == (ms@[k].0@, json_model(ms@[k].1)),
                forall|a: int| 0 <= a < i ==> (#[trigger] mm[a]).0 != mm[j as int].0,
            decreases j - i,
        {
            if str_eq(ms[i].0.as_str(), ms[j].0.as_str()) {
                assert(mm[i as int].0 == mm[j as int].0);
                return false;
            }
            i = i + 1;
        }
        j = j + 1;
    }
    true
}

impl ContextEntry {
    /// The JSON form of this entry.
    pub fn to_json(&self) -> (r: Json)
        ensures
            r@ == entry_json(*self),
        decreases self, 1nat,
    {
        match self {
            ContextEntry::Iri(s) => Json::String(s.clone()),
            ContextEntry::TermMap(v) => Json::Object(terms_to_json(v)),
        }
    }

    /// Reads a context entry from its JSON form.
    pub fn from_json(j: &Json) -> (r: Result<ContextEntry, JsonError>)
        ensures
            match r {
                Ok(e) => is_entry_json(j@) && entry_json(e) == j@ && entry_wf(e),
                Err(_) => !is_entry_json(j@),
            },
        decreases j,
    {
        match j {
            Json::String(s) => Ok(ContextEntry::Iri(s.clone())),
            Json::Object(ms) => {
                if !names_are_distinct(ms) {
                    return Err(JsonError);
                }
                let ghost mm = members_model(ms@, ms@.len());
                proof {
                    lemma_members_model(ms@, ms@.len());
                }
                let mut out: Vec<(String, ContextEntry)> = Vec::new();
                let mut i: usize = 0;
                while i < ms.len()
                    invariant
                        i <= ms.len(),
                        *j == Json::Object(*ms),
                        mm == members_model(ms@, ms@.len()),
                        mm.len() == ms@.len(),
                        forall|k: int| 0 <= k < ms@.len() ==> #[trigger] mm[k] == (ms@[k].0@, json_model(ms@[k].1)),
                        out@.len() == i,
                        forall|k: int| 0 <= k < i ==> (#[trigger] out@[k]).0@ == ms@[k].0@ && entry_json(out@[k].1) == json_model(ms@[k].1)
                            && is_entry_json(json_model(ms@[k].1)),
                    decreases ms.len() - i,
                {
                    proof {
                        assert(decreases_to!(*j => *ms));
                        assert(decreases_to!(*ms => ms@[i as int]));
                        assert(decreases_to!(ms@[i as int] => ms@[i as int].1));
                    }
                    let (k, v) = &ms[i];
                    match ContextEntry::from_json(v) {
                        Ok(e) => {
                            out.push((k.clone(), e));
                        },
                        Err(err) => {
                            proof {
                                lemma_entry_members_ok(mm, mm.len());
                                assert(mm[i as int].1 == json_model(*v));
                            }
                            return Err(err);
                        },
                    }
                    i = i + 1;
                }
                proof {
                    lemma_entry_members_ok(mm, mm.len());
                    lemma_terms_json(out@, out@.len());
                    assert(terms_json(out@, out@.len()) =~= mm);
                }
                Ok(ContextEntry::TermMap(out))
            },
            _ => Err(JsonError),
        }
    }
}

impl Context {
    /// The JSON form of this context.
    pub fn to_json(&self) -> (r: Json)
        ensures
            r@ == context_json(*self),
    {
        match self {
            Context::Single(e) => e.to_json(),
            Context::Array(v) => {
                let mut out: Vec<Json> = Vec::new();
                let mut i: usize = 0;
                while i < v.len()
                    invariant
                        i <= v.len(),
                        out@.len() == i,
                        forall|k: int| 0 <= k < i ==> json_model(#[trigger] out@[k]) == entry_json(v@[k]),
                    decreases v.len() - i,
                {
                    out.push(v[i].to_json());
                    i = i + 1;
                }
                proof {
                    lemma_json_list_model(out@, out@.len());
                    lemma_entries_json(v@, v@.len());
                    assert(json_list_model(out@, out@.len()) =~= entries_json(v@, v@.len()));
                }
                Json::Array(out)
            },
        }
    }

    /// Reads a context from its JSON form: an array of entries, or one entry.
    pub fn from_json(j: &Json) -> (r: Result<Context, JsonError>)
        ensures
            match r {
                Ok(c) => is_context_json(j@) && context_json(c) == j@ && context_wf(c),
                Err(_) => !is_context_json(j@),
            },
    {
        match j {
            Json::Array(items) => {
                let ghost l = json_list_model(items@, items@.len());
                proof {
                    lemma_json_list_model(items@, items@.len());
                }
                let mut out: Vec<ContextEntry> = Vec::new();
                let mut i: usize = 0;
                while i < items.len()
                    invariant
                        i <= items.len(),
                        *j == Json::Array(*items),
                        l == json_list_model(items@, items@.len()),
                        l.len() == items@.len(),
                        forall|k: int| 0 <= k < items@.len() ==> #[trigger] l[k] == json_model(items@[k]),
                        out@.len() == i,
                        forall|k: int| 0 <= k < i ==> entry_json(#[trigger] out@[k]) == l[k] && is_entry_json(l[k]),
                    decreases items.len() - i,
                {
                    match ContextEntry::from_json(&items[i]) {
                        Ok(e) => {
                            out.push(e);
                        },
                        Err(err) => {
                            proof {
                                lemma_entry_items_ok(l, l.len());
                                assert(l[i as int] == json_model(items@[i as int]));
                            }
                            return Err(err);
                        },
                    }
                    i = i + 1;
                }
                proof {
                    lemma_entry_items_ok(l, l.len());
                    lemma_entries_json(out@, out@.len());
                    assert(entries_json(out@, out@.len()) =~= l);
                }
                Ok(Context::Array(out))
            },
            _ => match ContextEntry::from_json(j) {
                Ok(e) => Ok(Context::Single(e)),
                Err(err) => Err(err),
            },
        }
    }
}

impl JsonLDContext {
    /// The JSON form of this context.
    pub fn to_json(&self) -> (r: Json)
        ensures
            r@ == context_json(self.context),
    {
        self.context.to_json()
    }
}

/// The `@type` member of a JSON-LD document.
#[derive(Debug, PartialEq)]
pub struct JsonLDType {
    pub name: String,
}

impl JsonLDType {
    /// The type named `name`.
    pub fn named(name: &str) -> (r: JsonLDType)
        ensures
            r.name@ == name@,
    {
        JsonLDType { name: owned(name) }
    }
}

impl From<String> for JsonLDType {
    fn from(value: String) -> (r: JsonLDType) {
        JsonLDType { name: value }
    }
}

impl vstd::std_specs::convert::FromSpecImpl<String> for JsonLDType {
    open spec fn obeys_from_spec() -> bool {
        true
    }

    open spec fn from_spec(v: String) -> JsonLDType {
        JsonLDType { name: v }
    }
}

/// A reference to a resource by its `@id`.
#[derive(Debug, PartialEq)]
pub struct Resource {
    pub id: String,
}

impl From<String> for Resource {
    fn from(value: String) -> (r: Resource) {
        Resource { id: value }
    }
}

impl vstd::std_specs::convert::FromSpecImpl<String> for Resource {
    open spec fn obeys_from_spec() -> bool {
        true
    }

    open spec fn from_spec(v: String) -> Resource {
        Resource { id: v }
    }
}

// ---------------------------------------------------------------------------
// The header shared by all messages: `@context` and `@type`
// ---------------------------------------------------------------------------

/// The members `@context` and `@type` that every message starts with.
pub open spec fn header_json(context: JsonModel, ty: Seq<char>) -> Seq<(Seq<char>, JsonModel)> {
    seq![("@context"@, context), ("@type"@, JsonModel::String(ty))]
}

/// The context and type that the members `ms` of a message carry.
pub open spec fn header_from(ms: Seq<(Seq<char>, JsonModel)>) -> Option<(JsonModel, Seq<char>)> {
    match (member(ms, "@context"@), req_str(ms, "@type"@)) {
        (Some(c), Some(t)) => if is_context_json(c) {
            Some((c, t))
        } else {
            None
        },
        _ => None,
    }
}

/// The members `@context` and `@type` of a message.
pub fn header_members(context: &JsonLDContext, ty: &JsonLDType) -> (r: Vec<(String, Json)>)
    ensures
        members_model(r@, r@.len()) == header_json(context_json(context.context), ty.name@),
{
    let mut ms: Vec<(String, Json)> = Vec::new();
    proof {
        assert(members_model(ms@, ms@.len()) =~= Seq::empty());
    }
    push_member(&mut ms, "@context", context.to_json());
    push_member(&mut ms, "@type", Json::String(ty.name.clone()));
    proof {
        assert(members_model(ms@, ms@.len()) =~= header_json(context_json(context.context), ty.name@));
    }
    ms
}

/// Reads the context and type of a message.
pub fn read_header(ms: &Vec<(String, Json)>) -> (r: Result<(JsonLDContext, JsonLDType), JsonError>)
    ensures
        match r {
            Ok((c, t)) => header_from(members_model(ms@, ms@.len())) == Some((context_json(c.context), t.name@)),
            Err(_) => header_from(members_model(ms@, ms@.len())) is None,
        },
{
    let context = match get_member(ms, "@context") {
        Some(cj) => match Context::from_json(cj) {
            Ok(c) => c,
            Err(e) => return Err(e),
        },
        None => return Err(JsonError),
    };
    let ty_name = match get_str(ms, "@type") {
        Ok(t) => t,
        Err(e) => return Err(e),
    };
    Ok((JsonLDContext { context }, JsonLDType { name: ty_name }))
}

/// The length and first letter of each member name and word of the message model:
/// enough to tell any two of them apart.
pub proof fn lemma_member_names()
    ensures
        "@context"@.len() == 8 && "@context"@[0] == '@',
        "@type"@.len() == 5 && "@type"@[0] == '@',
        "@id"@.len() == 3 && "@id"@[0] == '@',
        "providerPid"@.len() == 11 && "providerPid"@[0] == 'p',
        "consumerPid"@.len() == 11 && "consumerPid"@[0] == 'c',
        "state"@.len() == 5 && "state"@[0] == 's',
        "eventType"@.len() == 9 && "eventType"@[0] == 'e',
        "code"@.len() == 4 && "code"@[0] == 'c',
        "reason"@.len() == 6 && "reason"@[0] == 'r',
        "agreementId"@.len() == 11 && "agreementId"@[0] == 'a',
        "format"@.len() == 6 && "format"@[0] == 'f',
        "callbackAddress"@.len() == 15 && "callbackAddress"@[0] == 'c',
        "dataAddress"@.len() == 11 && "dataAddress"@[0] == 'd',
        "endpointType"@.len() == 12 && "endpointType"@[0] == 'e',
        "endpoint"@.len() == 8 && "endpoint"@[0] == 'e',
        "endpointProperties"@.len() == 18 && "endpointProperties"@[0] == 'e',
        "name"@.len() == 4 && "name"@[0] == 'n',
        "value"@.len() == 5 && "value"@[0] == 'v',
        "protocolVersions"@.len() == 16 && "protocolVersions"@[0] == 'p',
        "version"@.len() == 7 && "version"@[0] == 'v',
        "path"@.len() == 4 && "path"@[0] == 'p',
        "binding"@.len() == 7 && "binding"@[0] == 'b',
        "identifierType"@.len() == 14 && "identifierType"@[0] == 'i',
        "serviceId"@.len() == 9 && "serviceId"@[0] == 's',
        "auth"@.len() == 4 && "auth"@[0] == 'a',
        "protocol"@.len() == 8 && "protocol"@[0] == 'p',
        "profile"@.len() == 7 && "profile"@[0] == 'p',
        "ACCEPTED"@.len() == 8 && "ACCEPTED"@[0] == 'A',
        "FINALIZED"@.len() == 9 && "FINALIZED"@[0] == 'F',
{
    reveal_strlit("@context");
    reveal_strlit("@type");
    reveal_strlit("@id");
    reveal_strlit("providerPid");
    reveal_strlit("consumerPid");
    reveal_strlit("state");
    reveal_strlit("eventType");
    reveal_strlit("code");
    reveal_strlit("reason");
    reveal_strlit("agreementId");
    reveal_strlit("format");
    reveal_strlit("callbackAddress");
    reveal_strlit("dataAddress");
    reveal_strlit("endpointType");
    reveal_strlit("endpoint");
    reveal_strlit("endpointProperties");
    reveal_strlit("name");
    reveal_strlit("value");
    reveal_strlit("protocolVersions");
    reveal_strlit("version");
    reveal_strlit("path");
    reveal_strlit("binding");
    reveal_strlit("identifierType");
    reveal_strlit("serviceId");
    reveal_strlit("auth");
    reveal_strlit("protocol");
    reveal_strlit("profile");
    reveal_strlit("ACCEPTED");
    reveal_strlit("FINALIZED");
}

/// The JSON form of the context of the dataspace protocol.
pub open spec fn default_context_json() -> JsonModel {
    JsonModel::Array(seq![JsonModel::String(CONTEXT@)])
}

} // verus!
