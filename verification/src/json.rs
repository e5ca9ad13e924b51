//! A JSON document tree, the form in which the message model reads and writes its
//! JSON-LD documents, with its mathematical view and helpers to read and build objects.
use vstd::prelude::*;
use crate::text::{opt_str_view, strs_view};

verus! {

broadcast use vstd::std_specs::vec::group_vec_axioms;

/// A JSON value. Numbers keep their textual form; objects keep their members in order.
#[derive(Debug, PartialEq)]
pub enum Json {
    Null,
    Bool(bool),
    Number(String),
    String(String),
    Array(Vec<Json>),
    Object(Vec<(String, Json)>),
}

/// Why a JSON document could not be read as a message.
#[derive(Debug, PartialEq, Eq)]
pub struct JsonError;

pub enum JsonModel {
    Null,
    Bool(bool),
    Number(Seq<char>),
    String(Seq<char>),
    Array(Seq<JsonModel>),
    Object(Seq<(Seq<char>, JsonModel)>),
}

/// The view of a JSON value.
pub open spec fn json_model(j: Json) -> JsonModel
    decreases j, 0nat,
{
    match j {
        Json::Null => JsonModel::Null,
        Json::Bool(b) => JsonModel::Bool(b),
        Json::Number(n) => JsonModel::Number(n@),
        Json::String(s) => JsonModel::String(s@),
        Json::Array(v) => JsonModel::Array(json_list_model(v@, v@.len())),
        Json::Object(ms) => JsonModel::Object(members_model(ms@, ms@.len())),
    }
}

/// The views of the first `n` values of `s`.
pub open spec fn json_list_model(s: Seq<Json>, n: nat) -> Seq<JsonModel>
    decreases s, n,
{
    if n == 0 || n > s.len() {
        Seq::empty()
    } else {
        json_list_model(s, (n - 1) as nat).push(json_model(s[n - 1]))
    }
}

/// The views of the first `n` members of `s`.
pub open spec fn members_model(s: Seq<(String, Json)>, n: nat) -> Seq<(Seq<char>, JsonModel)>
    decreases s, n,
{
    if n == 0 || n > s.len() {
        Seq::empty()
    } else {
        members_model(s, (n - 1) as nat).push((s[n - 1].0@, json_model(s[n - 1].1)))
    }
}

impl Json {
    /// The text of a JSON string, and nothing for any other value.
    pub open spec fn spec_as_str(self) -> Option<Seq<char>> {
        match self {
            Json::String(s) => Some(s@),
            _ => None,
        }
    }

    /// A copy of the text of a JSON string.
    pub fn as_str_owned(&self) -> (r: Option<String>)
        ensures
            opt_str_view(r) == self.spec_as_str(),
    {
        match self {
            Json::String(s) => Some(s.clone()),
            _ => None,
        }
    }
}

impl View for Json {
    type V = JsonModel;

    open spec fn view(&self) -> JsonModel {
        json_model(*self)
    }
}

pub proof fn lemma_json_list_model(s: Seq<Json>, n: nat)
    requires
        n <= s.len(),
    ensures
        json_list_model(s, n).len() == n,
        forall|j: int| 0 <= j < n ==> #[trigger] json_list_model(s, n)[j] == json_model(s[j]),
    decreases n,
{
    if n > 0 {
        lemma_json_list_model(s, (n - 1) as nat);
    }
}

pub proof fn lemma_members_model(s: Seq<(String, Json)>, n: nat)
    requires
        n <= s.len(),
    ensures
        members_model(s, n).len() == n,
        forall|j: int| 0 <= j < n ==> #[trigger] members_model(s, n)[j] == (s[j].0@, json_model(s[j].1)),
    decreases n,
{
    if n > 0 {
        lemma_members_model(s, (n - 1) as nat);
    }
}

pub proof fn lemma_json_list_model_ext(s1: Seq<Json>, s2: Seq<Json>, n: nat)
    requires
        n <= s1.len(),
        n <= s2.len(),
        forall|j: int| 0 <= j < n ==> json_model(#[trigger] s1[j]) == json_model(s2[j]),
    ensures
        json_list_model(s1, n) == json_list_model(s2, n),
    decreases n,
{
    if n > 0 {
        lemma_json_list_model_ext(s1, s2, (n - 1) as nat);
    }
}

pub proof fn lemma_members_model_ext(s1: Seq<(String, Json)>, s2: Seq<(String, Json)>, n: nat)
    requires
        n <= s1.len(),
        n <= s2.len(),
        forall|j: int| 0 <= j < n ==> (#[trigger] s1[j]).0@ == s2[j].0@ && json_model(s1[j].1) == json_model(s2[j].1),
    ensures
        members_model(s1, n) == members_model(s2, n),
    decreases n,
{
    if n > 0 {
        lemma_members_model_ext(s1, s2, (n - 1) as nat);
    }
}

/// The JSON value of a list of views.
pub open spec fn json_array(v: Seq<Json>) -> JsonModel {
    JsonModel::Array(json_list_model(v, v.len()))
}

/// The JSON value of a list of members.
pub open spec fn json_object(ms: Seq<(String, Json)>) -> JsonModel {
    JsonModel::Object(members_model(ms, ms.len()))
}

// ---------------------------------------------------------------------------
// Reading objects
// ---------------------------------------------------------------------------

/// The value of the first member named `key`, from index `i` on.
pub open spec fn member_from(ms: Seq<(Seq<char>, JsonModel)>, key: Seq<char>, i: int) -> Option<JsonModel>
    decreases ms.len() - i,
{
    if i < 0 || i >= ms.len() {
        None
    } else if ms[i].0 == key {
        Some(ms[i].1)
    } else {
        member_from(ms, key, i + 1)
    }
}

/// The value of the first member named `key`.
pub open spec fn member(ms: Seq<(Seq<char>, JsonModel)>, key: Seq<char>) -> Option<JsonModel> {
    member_from(ms, key, 0)
}

/// Appending a member hides nothing that was there, and shows it where it is the first of its name.
pub proof fn lemma_member_push(ms: Seq<(Seq<char>, JsonModel)>, k: Seq<char>, v: JsonModel, key: Seq<char>)
    ensures
        member(ms.push((k, v)), key) == (if member(ms, key) is Some {
            member(ms, key)
        } else if k == key {
            Some(v)
        } else {
            None
        }),
{
    lemma_member_push_from(ms, k, v, key, 0);
}

proof fn lemma_member_push_from(ms: Seq<(Seq<char>, JsonModel)>, k: Seq<char>, v: JsonModel, key: Seq<char>, i: int)
    requires
        0 <= i <= ms.len(),
    ensures
        member_from(ms.push((k, v)), key, i) == (if member_from(ms, key, i) is Some {
            member_from(ms, key, i)
        } else if k == key {
            Some(v)
        } else {
            None
        }),
    decreases ms.len() - i,
{
    if i < ms.len() {
        assert(ms.push((k, v))[i] == ms[i]);
        lemma_member_push_from(ms, k, v, key, i + 1);
    } else {
        assert(ms.push((k, v))[i] == (k, v));
        assert(member_from(ms.push((k, v)), key, i + 1) is None);
    }
}

/// A required string member.
pub open spec fn req_str(ms: Seq<(Seq<char>, JsonModel)>, key: Seq<char>) -> Option<Seq<char>> {
    match member(ms, key) {
        Some(JsonModel::String(s)) => Some(s),
        _ => None,
    }
}

/// An optional string member: `Some(None)` where it is absent or null, `None` where
/// it holds something other than a string.
pub open spec fn opt_str(ms: Seq<(Seq<char>, JsonModel)>, key: Seq<char>) -> Option<Option<Seq<char>>> {
    match member(ms, key) {
        None => Some(None),
        Some(JsonModel::Null) => Some(None),
        Some(JsonModel::String(s)) => Some(Some(s)),
        _ => None,
    }
}

/// The strings of a JSON array of strings.
pub open spec fn str_list(items: Seq<JsonModel>) -> Option<Seq<Seq<char>>> {
    if forall|i: int| 0 <= i < items.len() ==> #[trigger] items[i] is String {
        Some(Seq::new(items.len(), |i: int| items[i]->String_0))
    } else {
        None
    }
}

/// The JSON array of some strings.
pub open spec fn str_list_json(ss: Seq<Seq<char>>) -> JsonModel {
    JsonModel::Array(Seq::new(ss.len(), |i: int| JsonModel::String(ss[i])))
}

/// An optional member holding a list of strings.
pub open spec fn opt_strs(ms: Seq<(Seq<char>, JsonModel)>, key: Seq<char>) -> Option<Option<Seq<Seq<char>>>> {
    match member(ms, key) {
        None => Some(None),
        Some(JsonModel::Null) => Some(None),
        Some(JsonModel::Array(items)) => match str_list(items) {
            Some(ss) => Some(Some(ss)),
            None => None,
        },
        _ => None,
    }
}

/// The value of the first member named `key`.
pub fn get_member<'a>(ms: &'a Vec<(String, Json)>, key: &str) -> (r: Option<&'a Json>)
    ensures
        match r {
            Some(j) => member(members_model(ms@, ms@.len()), key@) == Some(j@),
            None => member(members_model(ms@, ms@.len()), key@) is None,
        },
{
    let ghost mm = members_model(ms@, ms@.len());
    proof {
        lemma_members_model(ms@, ms@.len());
    }
    let mut i: usize = 0;
    while i < ms.len()
        invariant
            i <= ms.len(),
            mm == members_model(ms@, ms@.len()),
            mm.len() == ms@.len(),
            forall|j: int| 0 <= j < ms@.len() ==> #[trigger] mm[j] == (ms@[j].0@, json_model(ms@[j].1)),
            member(mm, key@) == member_from(mm, key@, i as int),
        decreases ms.len() - i,
    {
        if crate::text::str_eq(ms[i].0.as_str(), key) {
            return Some(&ms[i].1);
        }
        i = i + 1;
    }
    None
}

/// A required string member.
pub fn get_str(ms: &Vec<(String, Json)>, key: &str) -> (r: Result<String, JsonError>)
    ensures
        match r {
            Ok(s) => req_str(members_model(ms@, ms@.len()), key@) == Some(s@),
            Err(_) => req_str(members_model(ms@, ms@.len()), key@) is None,
        },
{
    match get_member(ms, key) {
        Some(Json::String(s)) => Ok(s.clone()),
        _ => Err(JsonError),
    }
}

/// An optional string member.
pub fn get_opt_str(ms: &Vec<(String, Json)>, key: &str) -> (r: Result<Option<String>, JsonError>)
    ensures
        match r {
            Ok(s) => opt_str(members_model(ms@, ms@.len()), key@) == Some(opt_str_view(s)),
            Err(_) => opt_str(members_model(ms@, ms@.len()), key@) is None,
        },
{
    match get_member(ms, key) {
        None => Ok(None),
        Some(Json::Null) => Ok(None),
        Some(Json::String(s)) => Ok(Some(s.clone())),
        _ => Err(JsonError),
    }
}

/// The strings of a JSON array of strings.
pub fn read_str_list(items: &Vec<Json>) -> (r: Result<Vec<String>, JsonError>)
    ensures
        match r {
            Ok(v) => str_list(json_list_model(items@, items@.len())) == Some(strs_view(v@)),
            Err(_) => str_list(json_list_model(items@, items@.len())) is None,
        },
{
    let ghost l = json_list_model(items@, items@.len());
    proof {
        lemma_json_list_model(items@, items@.len());
    }
    let mut out: Vec<String> = Vec::new();
    let mut i: usize = 0;
    while i < items.len()
        invariant
            i <= items.len(),
            l == json_list_model(items@, items@.len()),
            l.len() == items@.len(),
            forall|j: int| 0 <= j < items@.len() ==> #[trigger] l[j] == json_model(items@[j]),
            out@.len() == i,
            forall|j: int| 0 <= j < i ==> #[trigger] l[j] is String && l[j]->String_0 == out@[j]@,
        decreases items.len() - i,
    {
        match &items[i] {
            Json::String(s) => {
                out.push(s.clone());
            },
            _ => {
                assert(!(l[i as int] is String));
                return Err(JsonError);
            },
        }
        i = i + 1;
    }
    assert(strs_view(out@) =~= Seq::new(l.len(), |j: int| l[j]->String_0));
    Ok(out)
}

/// An optional member holding a list of strings.
pub fn get_opt_strs(ms: &Vec<(String, Json)>, key: &str) -> (r: Result<Option<Vec<String>>, JsonError>)
    ensures
        match r {
            Ok(v) => opt_strs(members_model(ms@, ms@.len()), key@) == Some(crate::text::opt_strs_view(v)),
            Err(_) => opt_strs(members_model(ms@, ms@.len()), key@) is None,
        },
{
    match get_member(ms, key) {
        None => Ok(None),
        Some(Json::Null) => Ok(None),
        Some(Json::Array(items)) => match read_str_list(items) {
            Ok(v) => Ok(Some(v)),
            Err(e) => Err(e),
        },
        _ => Err(JsonError),
    }
}

// ---------------------------------------------------------------------------
// Building objects
// ---------------------------------------------------------------------------

/// A JSON string holding a copy of `s`.
pub fn string_json(s: &str) -> (r: Json)
    ensures
        r@ == JsonModel::String(s@),
{
    Json::String(s.to_owned())
}

/// A JSON array of copies of some strings.
pub fn strs_json(v: &Vec<String>) -> (r: Json)
    ensures
        r@ == str_list_json(strs_view(v@)),
{
    let mut out: Vec<Json> = Vec::new();
    let mut i: usize = 0;
    while i < v.len()
        invariant
            i <= v.len(),
            out@.len() == i,
            forall|j: int| 0 <= j < i ==> json_model(#[trigger] out@[j]) == JsonModel::String(v@[j]@),
        decreases v.len() - i,
    {
        out.push(Json::String(v[i].clone()));
        i = i + 1;
    }
    proof {
        lemma_json_list_model(out@, out@.len());
        assert(json_list_model(out@, out@.len()) =~= Seq::new(v@.len(), |j: int| JsonModel::String(strs_view(v@)[j])));
    }
    Json::Array(out)
}

/// Appends a member to an object under construction.
pub fn push_member(ms: &mut Vec<(String, Json)>, key: &str, value: Json)
    ensures
        members_model(final(ms)@, final(ms)@.len()) == members_model(old(ms)@, old(ms)@.len()).push((key@, value@)),
{
    let ghost before = ms@;
    ms.push((key.to_owned(), value));
    proof {
        lemma_members_model_ext(before, ms@, before.len());
    }
}

/// `ms` with the member `(key, v)` appended where there is a value `v`.
pub open spec fn opt_member(ms: Seq<(Seq<char>, JsonModel)>, key: Seq<char>, v: Option<JsonModel>) -> Seq<(Seq<char>, JsonModel)> {
    match v {
        Some(x) => ms.push((key, x)),
        None => ms,
    }
}

/// The JSON string of an optional string, where there is one.
pub open spec fn opt_str_json(s: Option<Seq<char>>) -> Option<JsonModel> {
    match s {
        Some(x) => Some(JsonModel::String(x)),
        None => None,
    }
}

/// The JSON array of an optional list of strings, where there is one.
pub open spec fn opt_strs_json(s: Option<Seq<Seq<char>>>) -> Option<JsonModel> {
    match s {
        Some(x) => Some(str_list_json(x)),
        None => None,
    }
}

/// The JSON string of an optional string, or null.
pub open spec fn str_or_null(s: Option<Seq<char>>) -> JsonModel {
    match s {
        Some(x) => JsonModel::String(x),
        None => JsonModel::Null,
    }
}

/// A JSON string holding a copy of an optional string, or null.
pub fn string_or_null(s: &Option<String>) -> (r: Json)
    ensures
        r@ == str_or_null(opt_str_view(*s)),
{
    match s {
        Some(x) => Json::String(x.clone()),
        None => Json::Null,
    }
}

/// Appends a member to an object under construction where there is a value.
pub fn push_opt_member(ms: &mut Vec<(String, Json)>, key: &str, value: Option<Json>)
    ensures
        members_model(final(ms)@, final(ms)@.len()) == opt_member(
            members_model(old(ms)@, old(ms)@.len()),
            key@,
            match value {
                Some(j) => Some(j@),
                None => None,
            },
        ),
{
    match value {
        Some(j) => push_member(ms, key, j),
        None => {},
    }
}

/// A JSON string holding a copy of an optional string, where there is one.
pub fn opt_string_json(s: &Option<String>) -> (r: Option<Json>)
    ensures
        match r {
            Some(j) => Some(j@),
            None => None,
        } == opt_str_json(opt_str_view(*s)),
{
    match s {
        Some(x) => Some(Json::String(x.clone())),
        None => None,
    }
}

/// A JSON array holding copies of an optional list of strings, where there is one.
pub fn opt_strings_json(s: &Option<Vec<String>>) -> (r: Option<Json>)
    ensures
        match r {
            Some(j) => Some(j@),
            None => None,
        } == opt_strs_json(crate::text::opt_strs_view(*s)),
{
    match s {
        Some(v) => Some(strs_json(v)),
        None => None,
    }
}

/// Reading back the JSON array of some strings gives the same strings.
pub proof fn lemma_str_list_roundtrip(ss: Seq<Seq<char>>)
    ensures
        str_list_json(ss) is Array,
        str_list(str_list_json(ss)->Array_0) == Some(ss),
{
    let items = str_list_json(ss)->Array_0;
    assert(forall|i: int| 0 <= i < items.len() ==> #[trigger] items[i] is String);
    assert(Seq::new(items.len(), |i: int| items[i]->String_0) =~= ss);
}

impl Json {
    /// A deep copy of this value.
    pub fn copy(&self) -> (r: Json)
        ensures
            r@ == self@,
        decreases self, 1nat,
    {
        match self {
            Json::Null => Json::Null,
            Json::Bool(b) => Json::Bool(*b),
            Json::Number(n) => Json::Number(n.clone()),
            Json::String(s) => Json::String(s.clone()),
            Json::Array(items) => Json::Array(copy_items(items)),
            Json::Object(ms) => Json::Object(copy_members(ms)),
        }
    }
}

/// Deep copies of some values.
fn copy_items(items: &Vec<Json>) -> (out: Vec<Json>)
    ensures
        json_list_model(out@, out@.len()) == json_list_model(items@, items@.len()),
    decreases items, 0nat,
{
    let mut out: Vec<Json> = Vec::new();
    let mut i: usize = 0;
    while i < items.len()
        invariant
            i <= items.len(),
            out@.len() == i,
            forall|k: int| 0 <= k < i ==> json_model(#[trigger] out@[k]) == json_model(items@[k]),
        decreases items.len() - i,
    {
        proof {
            assert(decreases_to!(*items => items@[i as int]));
        }
        out.push(items[i].copy());
        i = i + 1;
    }
    proof {
        lemma_json_list_model_ext(out@, items@, out@.len());
    }
    out
}

/// Deep copies of some members.
fn copy_members(ms: &Vec<(String, Json)>) -> (out: Vec<(String, Json)>)
    ensures
        members_model(out@, out@.len()) == members_model(ms@, ms@.len()),
    decreases ms, 0nat,
{
    let mut out: Vec<(String, Json)> = Vec::new();
    let mut i: usize = 0;
    while i < ms.len()
        invariant
            i <= ms.len(),
            out@.len() == i,
            forall|k: int| 0 <= k < i ==> (#[trigger] out@[k]).0@ == ms@[k].0@ && json_model(out@[k].1) == json_model(ms@[k].1),
        decreases ms.len() - i,
    {
        proof {
            assert(decreases_to!(*ms => ms@[i as int]));
            assert(decreases_to!(ms@[i as int] => ms@[i as int].1));
        }
        let (k, v) = &ms[i];
        out.push((k.clone(), v.copy()));
        i = i + 1;
    }
    proof {
        lemma_members_model_ext(out@, ms@, out@.len());
    }
    out
}

/// A JSON object of one member.
pub fn object1(k1: &str, v1: Json) -> (r: Json)
    ensures
        r@ == JsonModel::Object(seq![(k1@, v1@)]),
{
    let mut ms: Vec<(String, Json)> = Vec::new();
    assert(members_model(ms@, ms@.len()) =~= Seq::empty());
    push_member(&mut ms, k1, v1);
    assert(members_model(ms@, ms@.len()) =~= seq![(k1@, v1@)]);
    Json::Object(ms)
}

/// A JSON object of two members.
pub fn object2(k1: &str, v1: Json, k2: &str, v2: Json) -> (r: Json)
    ensures
        r@ == JsonModel::Object(seq![(k1@, v1@), (k2@, v2@)]),
{
    let mut ms: Vec<(String, Json)> = Vec::new();
    assert(members_model(ms@, ms@.len()) =~= Seq::empty());
    push_member(&mut ms, k1, v1);
    push_member(&mut ms, k2, v2);
    assert(members_model(ms@, ms@.len()) =~= seq![(k1@, v1@), (k2@, v2@)]);
    Json::Object(ms)
}

/// A JSON object of three members.
pub fn object3(k1: &str, v1: Json, k2: &str, v2: Json, k3: &str, v3: Json) -> (r: Json)
    ensures
        r@ == JsonModel::Object(seq![(k1@, v1@), (k2@, v2@), (k3@, v3@)]),
{
    let mut ms: Vec<(String, Json)> = Vec::new();
    assert(members_model(ms@, ms@.len()) =~= Seq::empty());
    push_member(&mut ms, k1, v1);
    push_member(&mut ms, k2, v2);
    push_member(&mut ms, k3, v3);
    assert(members_model(ms@, ms@.len()) =~= seq![(k1@, v1@), (k2@, v2@), (k3@, v3@)]);
    Json::Object(ms)
}

/// A JSON array of one value.
pub fn array1(a: Json) -> (r: Json)
    ensures
        r@ == JsonModel::Array(seq![a@]),
{
    let mut v: Vec<Json> = Vec::new();
    v.push(a);
    proof {
        lemma_json_list_model(v@, v@.len());
        assert(json_list_model(v@, v@.len()) =~= seq![json_model(v@[0])]);
    }
    Json::Array(v)
}

/// A JSON array of four values.
pub fn array4(a: Json, b: Json, c: Json, d: Json) -> (r: Json)
    ensures
        r@ == JsonModel::Array(seq![a@, b@, c@, d@]),
{
    let mut v: Vec<Json> = Vec::new();
    v.push(a);
    v.push(b);
    v.push(c);
    v.push(d);
    proof {
        lemma_json_list_model(v@, v@.len());
        assert(json_list_model(v@, v@.len()) =~= seq![json_model(v@[0]), json_model(v@[1]), json_model(v@[2]), json_model(v@[3])]);
    }
    Json::Array(v)
}

/// A required member holding a list of strings.
pub open spec fn req_strs(ms: Seq<(Seq<char>, JsonModel)>, key: Seq<char>) -> Option<Seq<Seq<char>>> {
    match member(ms, key) {
        Some(JsonModel::Array(items)) => str_list(items),
        _ => None,
    }
}

/// Reads a required member holding a list of strings.
pub fn get_strs(ms: &Vec<(String, Json)>, key: &str) -> (r: Result<Vec<String>, JsonError>)
    ensures
        match r {
            Ok(v) => req_strs(members_model(ms@, ms@.len()), key@) == Some(strs_view(v@)),
            Err(_) => req_strs(members_model(ms@, ms@.len()), key@) is None,
        },
{
    match get_member(ms, key) {
        Some(Json::Array(items)) => read_str_list(items),
        _ => Err(JsonError),
    }
}

} // verus!
