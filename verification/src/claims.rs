//! The claims carried by an access token.
use vstd::prelude::*;
use crate::json::{Json, JsonModel};

verus! {

/// The claims of an access token: a map from claim names to JSON values.
#[derive(Debug)]
pub struct AuthClaims {
    entries: Vec<(String, Json)>,
}

/// The map that the first `n` entries describe, a later entry for a name replacing
/// an earlier one.
pub open spec fn entries_map(s: Seq<(String, Json)>, n: nat) -> Map<Seq<char>, JsonModel>
    decreases n,
{
    if n == 0 || n > s.len() {
        Map::empty()
    } else {
        entries_map(s, (n - 1) as nat).insert(s[n - 1].0@, s[n - 1].1@)
    }
}

/// The text of claim `key`, where it is present and a JSON string.
pub open spec fn claim_str(claims: Map<Seq<char>, JsonModel>, key: Seq<char>) -> Option<Seq<char>> {
    if claims.contains_key(key) {
        match claims[key] {
            JsonModel::String(s) => Some(s),
            _ => None,
        }
    } else {
        None
    }
}

impl View for AuthClaims {
    type V = Map<Seq<char>, JsonModel>;

    closed spec fn view(&self) -> Map<Seq<char>, JsonModel> {
        entries_map(self.entries@, self.entries@.len())
    }
}

impl Default for AuthClaims {
    fn default() -> (r: AuthClaims)
        ensures
            r@ == Map::<Seq<char>, JsonModel>::empty(),
    {
        AuthClaims { entries: Vec::new() }
    }
}

impl AuthClaims {
    /// Sets claim `key` to `value`.
    pub fn insert(&mut self, key: String, value: Json)
        ensures
            final(self)@ == old(self)@.insert(key@, value@),
    {
        let ghost before = self.entries@;
        self.entries.push((key, value));
        proof {
            lemma_entries_map_prefix(before, self.entries@, before.len());
        }
    }

    /// The text of claim `key`, where it is present and a JSON string.
    pub fn get_str(&self, key: &str) -> (r: Option<String>)
        ensures
            crate::text::opt_str_view(r) == claim_str(self@, key@),
    {
        let n = self.entries.len();
        let mut i: usize = n;
        while i > 0
            invariant
                i <= n,
                n == self.entries@.len(),
                forall|k: int| i <= k < n ==> (#[trigger] self.entries@[k]).0@ != key@,
                entries_map(self.entries@, n as nat).contains_key(key@) == entries_map(self.entries@, i as nat).contains_key(key@),
                entries_map(self.entries@, i as nat).contains_key(key@) ==> entries_map(self.entries@, n as nat)[key@]
                    == entries_map(self.entries@, i as nat)[key@],
            decreases i,
        {
            let entry = &self.entries[i - 1];
            if entry.0.as_str().to_owned() == key.to_owned() {
                return entry.1.as_str_owned();
            }
            i = i - 1;
        }
        None
    }
}

proof fn lemma_entries_map_prefix(s: Seq<(String, Json)>, t: Seq<(String, Json)>, n: nat)
    requires
        n <= s.len(),
        n <= t.len(),
        forall|k: int| 0 <= k < n ==> s[k] == t[k],
    ensures
        entries_map(s, n) == entries_map(t, n),
    decreases n,
{
    if n > 0 {
        lemma_entries_map_prefix(s, t, (n - 1) as nat);
    }
}

} // verus!
