//! What the authentication flow reads and writes: DID documents, presented credentials,
//! verification sessions, and the claims of the tokens it issues.
use vstd::prelude::*;
use crate::claims::AuthClaims;
use crate::json::{
    Json, JsonError, JsonModel, json_model, json_list_model, lemma_json_list_model, member, get_member, get_str, get_strs,
    req_str, req_strs, object1, object2, object3, array1, array4,
};
use crate::text::{str_eq, owned};

verus! {

broadcast use vstd::std_specs::vec::group_vec_axioms;

// ---------------------------------------------------------------------------
// DID documents
// ---------------------------------------------------------------------------

/// A verification method of a DID document, with its public key as a JSON web key.
#[derive(Debug)]
pub struct VerificationMethod {
    pub id: String,
    pub controller: String,
    pub public_key_jwk: Json,
}

/// A DID document: its identifier, the methods it authenticates with, and its
/// verification methods.
#[derive(Debug)]
pub struct DidDocument {
    pub id: String,
    pub authentication: Vec<String>,
    pub verification_method: Vec<VerificationMethod>,
}

/// The index of the first method from `j` on that is named `name` and controlled by `controller`.
pub open spec fn method_named(ms: Seq<VerificationMethod>, name: Seq<char>, controller: Seq<char>, j: int) -> Option<int>
    decreases ms.len() - j,
{
    if j < 0 || j >= ms.len() {
        None
    } else if ms[j].id@ == name && ms[j].controller@ == controller {
        Some(j)
    } else {
        method_named(ms, name, controller, j + 1)
    }
}

/// The method of the first authentication entry, from index `i` on, that names a method
/// the document itself controls.
pub open spec fn authentication_method_from(d: DidDocument, i: int) -> Option<int>
    decreases d.authentication@.len() - i,
{
    if i < 0 || i >= d.authentication@.len() {
        None
    } else {
        match method_named(d.verification_method@, d.authentication@[i]@, d.id@, 0) {
            Some(k) => Some(k),
            None => authentication_method_from(d, i + 1),
        }
    }
}

/// The index of the first method from `j` on that is named `name` and controlled by `controller`.
fn find_method(ms: &Vec<VerificationMethod>, name: &str, controller: &str) -> (r: Option<usize>)
    ensures
        match r {
            Some(k) => method_named(ms@, name@, controller@, 0) == Some(k as int) && k < ms@.len(),
            None => method_named(ms@, name@, controller@, 0) is None,
        },
{
    let mut j: usize = 0;
    while j < ms.len()
        invariant
            j <= ms.len(),
            method_named(ms@, name@, controller@, 0) == method_named(ms@, name@, controller@, j as int),
        decreases ms.len() - j,
    {
        if str_eq(ms[j].id.as_str(), name) && str_eq(ms[j].controller.as_str(), controller) {
            return Some(j);
        }
        j = j + 1;
    }
    None
}

impl DidDocument {
    /// The verification method to check tokens with: that of the first authentication
    /// entry naming a method the document itself controls.
    pub fn authentication_method(&self) -> (r: Option<&VerificationMethod>)
        ensures
            match authentication_method_from(*self, 0) {
                Some(k) => r == Some(&self.verification_method@[k]),
                None => r is None,
            },
    {
        let mut i: usize = 0;
        while i < self.authentication.len()
            invariant
                i <= self.authentication.len(),
                authentication_method_from(*self, 0) == authentication_method_from(*self, i as int),
            decreases self.authentication.len() - i,
        {
            match find_method(&self.verification_method, self.authentication[i].as_str(), self.id.as_str()) {
                Some(k) => {
                    return Some(&self.verification_method[k]);
                },
                None => {},
            }
            i = i + 1;
        }
        None
    }
}

/// What a verification method says.
pub struct VerificationMethodModel {
    pub id: Seq<char>,
    pub controller: Seq<char>,
    pub public_key_jwk: JsonModel,
}

impl View for VerificationMethod {
    type V = VerificationMethodModel;

    open spec fn view(&self) -> VerificationMethodModel {
        VerificationMethodModel { id: self.id@, controller: self.controller@, public_key_jwk: self.public_key_jwk@ }
    }
}

/// What a DID document says.
pub struct DidDocumentModel {
    pub id: Seq<char>,
    pub authentication: Seq<Seq<char>>,
    pub verification_method: Seq<VerificationMethodModel>,
}

impl View for DidDocument {
    type V = DidDocumentModel;

    open spec fn view(&self) -> DidDocumentModel {
        DidDocumentModel {
            id: self.id@,
            authentication: crate::text::strs_view(self.authentication@),
            verification_method: Seq::new(self.verification_method@.len(), |i: int| self.verification_method@[i]@),
        }
    }
}

/// The verification method that a JSON value holds: an object with the members `id`,
/// `controller` and `publicKeyJwk`, the key being kept as it is.
pub open spec fn verification_method_from(j: JsonModel) -> Option<VerificationMethodModel> {
    match j {
        JsonModel::Object(ms) => match (req_str(ms, "id"@), req_str(ms, "controller"@), member(ms, "publicKeyJwk"@)) {
            (Some(id), Some(controller), Some(key)) => Some(VerificationMethodModel { id, controller, public_key_jwk: key }),
            _ => None,
        },
        _ => None,
    }
}

/// The verification methods of a JSON array, if every item holds one.
pub open spec fn verification_methods_from(items: Seq<JsonModel>) -> Option<Seq<VerificationMethodModel>> {
    if forall|i: int| 0 <= i < items.len() ==> (#[trigger] verification_method_from(items[i])) is Some {
        Some(Seq::new(items.len(), |i: int| verification_method_from(items[i])->Some_0))
    } else {
        None
    }
}

/// The DID document that a JSON value holds: an object with the members `id`,
/// `authentication` (a list of method identifiers) and `verificationMethod`.
pub open spec fn did_document_from(j: JsonModel) -> Option<DidDocumentModel> {
    match j {
        JsonModel::Object(ms) => match (req_str(ms, "id"@), req_strs(ms, "authentication"@), member(ms, "verificationMethod"@)) {
            (Some(id), Some(authentication), Some(JsonModel::Array(items))) => match verification_methods_from(items) {
                Some(methods) => Some(DidDocumentModel { id, authentication, verification_method: methods }),
                None => None,
            },
            _ => None,
        },
        _ => None,
    }
}

impl VerificationMethod {
    /// Reads a verification method from JSON.
    pub fn from_json(j: &Json) -> (r: Result<VerificationMethod, JsonError>)
        ensures
            match r {
                Ok(m) => verification_method_from(j@) == Some(m@),
                Err(_) => verification_method_from(j@) is None,
            },
    {
        match j {
            Json::Object(ms) => {
                let id = get_str(ms, "id")?;
                let controller = get_str(ms, "controller")?;
                let key = match get_member(ms, "publicKeyJwk") {
                    Some(k) => k.copy(),
                    None => return Err(JsonError),
                };
                Ok(VerificationMethod { id, controller, public_key_jwk: key })
            },
            _ => Err(JsonError),
        }
    }
}

impl DidDocument {
    /// Reads a DID document from JSON.
    pub fn from_json(j: &Json) -> (r: Result<DidDocument, JsonError>)
        ensures
            match r {
                Ok(d) => did_document_from(j@) == Some(d@),
                Err(_) => did_document_from(j@) is None,
            },
    {
        match j {
            Json::Object(ms) => {
                let id = get_str(ms, "id")?;
                let authentication = get_strs(ms, "authentication")?;
                let items = match get_member(ms, "verificationMethod") {
                    Some(Json::Array(items)) => items,
                    _ => return Err(JsonError),
                };
                let ghost l = json_list_model(items@, items@.len());
                proof {
                    lemma_json_list_model(items@, items@.len());
                }
                assert(did_document_from(j@) == match verification_methods_from(l) {
                    Some(m) => Some(DidDocumentModel { id: id@, authentication: crate::text::strs_view(authentication@), verification_method: m }),
                    None => None,
                });
                let mut methods: Vec<VerificationMethod> = Vec::new();
                let mut i: usize = 0;
                while i < items.len()
                    invariant
                        i <= items.len(),
                        l == json_list_model(items@, items@.len()),
                        l.len() == items@.len(),
                        forall|k: int| 0 <= k < items@.len() ==> #[trigger] l[k] == json_model(items@[k]),
                        methods@.len() == i,
                        forall|k: int| 0 <= k < i ==> #[trigger] verification_method_from(l[k]) == Some(methods@[k]@),
                        did_document_from(j@) == match verification_methods_from(l) {
                            Some(m) => Some(DidDocumentModel { id: id@, authentication: crate::text::strs_view(authentication@), verification_method: m }),
                            None => None,
                        },
                    decreases items.len() - i,
                {
                    match VerificationMethod::from_json(&items[i]) {
                        Ok(m) => methods.push(m),
                        Err(e) => {
                            assert(verification_method_from(l[i as int]) is None);
                            return Err(e);
                        },
                    }
                    i = i + 1;
                }
                let d = DidDocument { id, authentication, verification_method: methods };
                proof {
                    assert(verification_methods_from(l)->Some_0 =~= d@.verification_method);
                }
                Ok(d)
            },
            _ => Err(JsonError),
        }
    }
}

/// Why a DID read from another service was refused.
#[derive(Debug, PartialEq, Eq)]
pub enum DidCheckError {
    /// The wallet answered with the document of another DID.
    WalletDidMismatch,
    /// The document read for a `did:web` names another identifier.
    DocumentIdMismatch,
}

/// Checks that the wallet answered with the DID that was asked for.
pub fn check_wallet_did(requested: &str, returned: &str) -> (r: Result<(), DidCheckError>)
    ensures
        requested@ == returned@ ==> r is Ok,
        requested@ != returned@ ==> r == Err::<(), DidCheckError>(DidCheckError::WalletDidMismatch),
{
    if str_eq(requested, returned) {
        Ok(())
    } else {
        Err(DidCheckError::WalletDidMismatch)
    }
}

impl DidDocument {
    /// Checks that the document read for `did_web` is that of `did_web`.
    pub fn check_id(&self, did_web: &str) -> (r: Result<(), DidCheckError>)
        ensures
            self.id@ == did_web@ ==> r is Ok,
            self.id@ != did_web@ ==> r == Err::<(), DidCheckError>(DidCheckError::DocumentIdMismatch),
    {
        if str_eq(self.id.as_str(), did_web) {
            Ok(())
        } else {
            Err(DidCheckError::DocumentIdMismatch)
        }
    }
}

// ---------------------------------------------------------------------------
// Presented credentials and the claims they give
// ---------------------------------------------------------------------------

/// One credential that a holder presented.
#[derive(Debug)]
pub struct CredentialData {
    pub credential_type: String,
    pub format: String,
    pub credential_data: Json,
    pub issuer: String,
}

/// The country of an address record: the member `country` of an object, or the one
/// item of an array.
pub open spec fn address_country(j: JsonModel) -> Option<JsonModel> {
    match j {
        JsonModel::Object(ms) => member(ms, "country"@),
        JsonModel::Array(items) => if items.len() == 1 {
            Some(items[0])
        } else {
            None
        },
        _ => None,
    }
}

/// The e-mail address and country of an identity record: the members `email` and
/// `address` of an object, or the two items of an array.
pub open spec fn identity_fields(j: JsonModel) -> Option<(JsonModel, JsonModel)> {
    match j {
        JsonModel::Object(ms) => match (member(ms, "email"@), member(ms, "address"@)) {
            (Some(e), Some(a)) => match address_country(a) {
                Some(c) => Some((e, c)),
                None => None,
            },
            _ => None,
        },
        JsonModel::Array(items) => if items.len() == 2 {
            match address_country(items[1]) {
                Some(c) => Some((items[0], c)),
                None => None,
            }
        } else {
            None
        },
        _ => None,
    }
}

/// The country of an address record.
fn read_address_country(j: &Json) -> (r: Option<&Json>)
    ensures
        match r {
            Some(c) => address_country(j@) == Some(c@),
            None => address_country(j@) is None,
        },
{
    match j {
        Json::Object(ms) => get_member(ms, "country"),
        Json::Array(items) => {
            proof {
                lemma_json_list_model(items@, items@.len());
            }
            if items.len() == 1 {
                Some(&items[0])
            } else {
                None
            }
        },
        _ => None,
    }
}

/// The e-mail address and country of an identity record.
pub fn read_identity_fields(j: &Json) -> (r: Option<(&Json, &Json)>)
    ensures
        match r {
            Some((e, c)) => identity_fields(j@) == Some((e@, c@)),
            None => identity_fields(j@) is None,
        },
{
    match j {
        Json::Object(ms) => {
            let email = get_member(ms, "email");
            let address = get_member(ms, "address");
            match (email, address) {
                (Some(e), Some(a)) => match read_address_country(a) {
                    Some(c) => Some((e, c)),
                    None => None,
                },
                _ => None,
            }
        },
        Json::Array(items) => {
            proof {
                lemma_json_list_model(items@, items@.len());
            }
            if items.len() == 2 {
                match read_address_country(&items[1]) {
                    Some(c) => Some((&items[0], c)),
                    None => None,
                }
            } else {
                None
            }
        },
        _ => None,
    }
}

/// The identity fields of the last identity credential, among the first `n`, whose
/// data reads as an identity record.
pub open spec fn last_identity(creds: Seq<(String, CredentialData)>, n: nat) -> Option<(JsonModel, JsonModel)>
    decreases n,
{
    if n == 0 || n > creds.len() {
        None
    } else if creds[n - 1].0@ == "identity"@ && identity_fields(creds[n - 1].1.credential_data@) is Some {
        identity_fields(creds[n - 1].1.credential_data@)
    } else {
        last_identity(creds, (n - 1) as nat)
    }
}

/// The claims of an access token for subject `sub`, issued by `iss`, that grants what
/// an identity credential proves.
pub open spec fn access_claims(email: JsonModel, country: JsonModel, iss: Seq<char>, sub: Seq<char>) -> Map<Seq<char>, JsonModel> {
    Map::<Seq<char>, JsonModel>::empty()
        .insert("email"@, email)
        .insert("country"@, country)
        .insert("iss"@, JsonModel::String(iss))
        .insert("sub"@, JsonModel::String(sub))
}

/// The claims of an access token for the holder `sub_did_web` of the presented
/// credentials, issued by `iss_did_web`: the e-mail address and country of the identity
/// credential, or nothing where no identity credential reads as one.
pub fn access_token_claims(
    credentials: &Vec<(String, CredentialData)>,
    iss_did_web: String,
    sub_did_web: String,
) -> (r: Option<AuthClaims>)
    ensures
        match last_identity(credentials@, credentials@.len()) {
            Some((e, c)) => r is Some && r->Some_0@ == access_claims(e, c, iss_did_web@, sub_did_web@),
            None => r is None,
        },
{
    let mut claims = AuthClaims::default();
    let mut found = false;
    let mut i: usize = 0;
    while i < credentials.len()
        invariant
            i <= credentials.len(),
            found == last_identity(credentials@, i as nat) is Some,
            match last_identity(credentials@, i as nat) {
                Some((e, c)) => claims@ == Map::<Seq<char>, JsonModel>::empty().insert("email"@, e).insert("country"@, c),
                None => claims@ == Map::<Seq<char>, JsonModel>::empty(),
            },
        decreases credentials.len() - i,
    {
        let (id, cd) = &credentials[i];
        if str_eq(id.as_str(), "identity") {
            match read_identity_fields(&cd.credential_data) {
                Some((e, c)) => {
                    claims.insert(owned("email"), e.copy());
                    claims.insert(owned("country"), c.copy());
                    proof {
                        assert(claims@ =~= Map::<Seq<char>, JsonModel>::empty().insert("email"@, e@).insert("country"@, c@));
                    }
                    found = true;
                },
                None => {},
            }
        }
        i = i + 1;
    }
    if !found {
        return None;
    }
    claims.insert(owned("iss"), Json::String(iss_did_web));
    claims.insert(owned("sub"), Json::String(sub_did_web));
    Some(claims)
}

/// The claims of a transfer token: the process `pid` as subject, issued by `iss_did_web`.
pub fn transfer_token_claims(pid: String, iss_did_web: String) -> (r: AuthClaims)
    ensures
        r@ == Map::<Seq<char>, JsonModel>::empty().insert("sub"@, JsonModel::String(pid@)).insert(
            "iss"@,
            JsonModel::String(iss_did_web@),
        ),
{
    let mut claims = AuthClaims::default();
    claims.insert(owned("sub"), Json::String(pid));
    claims.insert(owned("iss"), Json::String(iss_did_web));
    claims
}

// ---------------------------------------------------------------------------
// Verification sessions
// ---------------------------------------------------------------------------

/// The outcome of a verification session.
#[derive(Debug)]
pub enum VerificationState {
    Pending,
    /// The holder `did_web` presented these credentials, one per requested type.
    Successful { credentials: Vec<(String, CredentialData)>, did_web: String },
    Failed,
}

/// What a holder polling its verification is told.
#[derive(Debug, PartialEq, Eq)]
pub enum Status {
    Pending,
    Success { access_token: String },
    Failed,
}

/// What a holder polling its verification is told, from the state of its session and
/// the access token issued for it (none where its credentials give no claims or the
/// token could not be signed): still pending, the token where the session succeeded
/// and a token was issued, failed otherwise.
pub fn status_reply(state: &VerificationState, token: Option<String>) -> (r: Status)
    ensures
        match *state {
            VerificationState::Pending => r == Status::Pending,
            VerificationState::Successful { .. } => match token {
                Some(t) => r == (Status::Success { access_token: t }),
                None => r == Status::Failed,
            },
            VerificationState::Failed => r == Status::Failed,
        },
{
    match state {
        VerificationState::Pending => Status::Pending,
        VerificationState::Successful { .. } => match token {
            Some(t) => Status::Success { access_token: t },
            None => Status::Failed,
        },
        VerificationState::Failed => Status::Failed,
    }
}

/// The first credential presented for each requested type, among the first `n`
/// types, leaving out the types with none.
pub open spec fn first_credentials(p: Seq<(String, Vec<CredentialData>)>, n: nat) -> Seq<(String, CredentialData)>
    decreases n,
{
    if n == 0 || n > p.len() {
        Seq::empty()
    } else if p[n - 1].1@.len() > 0 {
        first_credentials(p, (n - 1) as nat).push((p[n - 1].0, p[n - 1].1@[0]))
    } else {
        first_credentials(p, (n - 1) as nat)
    }
}

/// The verifier's session states that mean the session is still running.
pub open spec fn is_pending_status(status: Seq<char>) -> bool {
    ||| status == "ACTIVE"@
    ||| status == "UNUSED"@
    ||| status == "IN_USE"@
    ||| status == "VALIDATING_RECEIVED_REQUEST"@
    ||| status == "PROCESSING_FLOW"@
}

/// Whether the verifier's session state means that the session is still running.
fn pending_status(status: &str) -> (r: bool)
    ensures
        r == is_pending_status(status@),
{
    str_eq(status, "ACTIVE") || str_eq(status, "UNUSED") || str_eq(status, "IN_USE") || str_eq(
        status,
        "VALIDATING_RECEIVED_REQUEST",
    ) || str_eq(status, "PROCESSING_FLOW")
}

/// The first credential presented for each requested type, leaving out the types with none.
fn take_first_credentials(presented: Vec<(String, Vec<CredentialData>)>) -> (r: Vec<(String, CredentialData)>)
    ensures
        r@ == first_credentials(presented@, presented@.len()),
{
    let ghost all = presented@;
    let mut rest = presented;
    let mut out: Vec<(String, CredentialData)> = Vec::new();
    let mut n: usize = 0;
    assert(all.len() == rest.len());
    while rest.len() > 0
        invariant
            n <= all.len(),
            all.len() <= usize::MAX,
            rest@ == all.subrange(n as int, all.len() as int),
            out@ == first_credentials(all, n as nat),
        decreases rest.len(),
    {
        let (id, mut cds) = rest.remove(0);
        assert(all[n as int] == (id, cds));
        if cds.len() > 0 {
            let cd = cds.remove(0);
            out.push((id, cd));
        }
        n = n + 1;
    }
    out
}

/// The outcome of a session from the verifier's report of it: successful where the
/// verifier says so and reports the presented credentials, still running for the
/// states that mean so, failed otherwise.
pub fn verification_state(
    status: &str,
    presented: Option<Vec<(String, Vec<CredentialData>)>>,
    did_web: String,
) -> (r: VerificationState)
    ensures
        status@ == "SUCCESSFUL"@ && presented is Some ==> r == (VerificationState::Successful {
            credentials: r->credentials,
            did_web,
        }) && r->credentials@ == first_credentials(presented->Some_0@, presented->Some_0@.len()),
        !(status@ == "SUCCESSFUL"@ && presented is Some) && is_pending_status(status@) ==> r is Pending,
        !(status@ == "SUCCESSFUL"@ && presented is Some) && !is_pending_status(status@) ==> r is Failed,
{
    if str_eq(status, "SUCCESSFUL") {
        match presented {
            Some(p) => {
                return VerificationState::Successful { credentials: take_first_credentials(p), did_web };
            },
            None => {},
        }
    }
    if pending_status(status) {
        VerificationState::Pending
    } else {
        VerificationState::Failed
    }
}

/// The open verification sessions: the holder that each session verifies.
pub struct Sessions {
    entries: Vec<(String, String)>,
}

/// The map that the first `n` entries describe, a later entry for a session replacing
/// an earlier one.
pub open spec fn session_map(s: Seq<(String, String)>, n: nat) -> Map<Seq<char>, Seq<char>>
    decreases n,
{
    if n == 0 || n > s.len() {
        Map::empty()
    } else {
        session_map(s, (n - 1) as nat).insert(s[n - 1].0@, s[n - 1].1@)
    }
}

impl View for Sessions {
    type V = Map<Seq<char>, Seq<char>>;

    closed spec fn view(&self) -> Map<Seq<char>, Seq<char>> {
        session_map(self.entries@, self.entries@.len())
    }
}

proof fn lemma_session_map_prefix(s: Seq<(String, String)>, t: Seq<(String, String)>, n: nat)
    requires
        n <= s.len(),
        n <= t.len(),
        forall|k: int| 0 <= k < n ==> s[k] == t[k],
    ensures
        session_map(s, n) == session_map(t, n),
    decreases n,
{
    if n > 0 {
        lemma_session_map_prefix(s, t, (n - 1) as nat);
    }
}

impl Sessions {
    /// No open session.
    pub fn new() -> (r: Sessions)
        ensures
            r@ == Map::<Seq<char>, Seq<char>>::empty(),
    {
        Sessions { entries: Vec::new() }
    }

    /// Opens session `session_id` for holder `did_web`, replacing any session of that id.
    pub fn insert(&mut self, session_id: String, did_web: String)
        ensures
            final(self)@ == old(self)@.insert(session_id@, did_web@),
    {
        let ghost before = self.entries@;
        self.entries.push((session_id, did_web));
        proof {
            lemma_session_map_prefix(before, self.entries@, before.len());
        }
    }

    /// The holder of session `session_id`.
    pub fn get(&self, session_id: &str) -> (r: Option<String>)
        ensures
            match r {
                Some(d) => self@.contains_key(session_id@) && self@[session_id@] == d@,
                None => !self@.contains_key(session_id@),
            },
    {
        let n = self.entries.len();
        let mut i: usize = n;
        while i > 0
            invariant
                i <= n,
                n == self.entries@.len(),
                forall|k: int| i <= k < n ==> (#[trigger] self.entries@[k]).0@ != session_id@,
                session_map(self.entries@, n as nat).contains_key(session_id@) == session_map(self.entries@, i as nat).contains_key(session_id@),
                session_map(self.entries@, i as nat).contains_key(session_id@) ==> session_map(self.entries@, n as nat)[session_id@]
                    == session_map(self.entries@, i as nat)[session_id@],
            decreases i,
        {
            let entry = &self.entries[i - 1];
            if str_eq(entry.0.as_str(), session_id) {
                return Some(entry.1.clone());
            }
            i = i - 1;
        }
        None
    }

    /// Closes session `session_id`.
    pub fn remove(&mut self, session_id: &str)
        ensures
            final(self)@ == old(self)@.remove(session_id@),
    {
        let ghost before = self.entries@;
        let mut kept: Vec<(String, String)> = Vec::new();
        let mut rest: Vec<(String, String)> = Vec::new();
        std::mem::swap(&mut rest, &mut self.entries);
        let mut n: usize = 0;
        assert(before.len() == rest.len());
        while rest.len() > 0
            invariant
                n <= before.len(),
                before.len() <= usize::MAX,
                rest@ == before.subrange(n as int, before.len() as int),
                session_map(kept@, kept@.len()) == session_map(before, n as nat).remove(session_id@),
            decreases rest.len(),
        {
            let entry = rest.remove(0);
            assert(before[n as int] == entry);
            if !str_eq(entry.0.as_str(), session_id) {
                let ghost k0 = kept@;
                kept.push(entry);
                proof {
                    lemma_session_map_prefix(k0, kept@, k0.len());
                    assert(session_map(kept@, kept@.len()) =~= session_map(before, (n + 1) as nat).remove(session_id@));
                }
            } else {
                proof {
                    assert(session_map(kept@, kept@.len()) =~= session_map(before, (n + 1) as nat).remove(session_id@));
                }
            }
            n = n + 1;
        }
        self.entries = kept;
    }
}

// ---------------------------------------------------------------------------
// The verification request sent to the verifier
// ---------------------------------------------------------------------------

/// A kind of credential to request: its format and verifiable credential type.
#[derive(Debug, PartialEq, Eq)]
pub struct CredentialType {
    pub format: String,
    pub vct: String,
}

/// The credential type that identifies a holder, as issued by `issuer_url`.
pub fn identity_credential_types(issuer_url: &str) -> (r: Vec<(String, CredentialType)>)
    ensures
        r@.len() == 1,
        r@[0].0@ == "identity"@,
        r@[0].1.format@ == "dc+sd-jwt"@,
        r@[0].1.vct@ == issuer_url@ + "/openid4vci/"@ + "identity_credential"@,
{
    let mut r: Vec<(String, CredentialType)> = Vec::new();
    r.push((
        owned("identity"),
        CredentialType {
            format: owned("dc+sd-jwt"),
            vct: crate::text::concat3(issuer_url, "/openid4vci/", "identity_credential"),
        },
    ));
    r
}

/// The JSON strings of some texts.
pub open spec fn strings_json(ss: Seq<Seq<char>>) -> JsonModel {
    crate::json::str_list_json(ss)
}

/// The request of one credential in a credential query.
pub open spec fn credential_query_json(id: Seq<char>, format: Seq<char>, vct: Seq<char>) -> JsonModel {
    JsonModel::Object(
        seq![
            ("id"@, JsonModel::String(id)),
            ("format"@, JsonModel::String(format)),
            ("meta"@, JsonModel::Object(seq![("vct_values"@, JsonModel::Array(seq![JsonModel::String(vct)]))])),
        ],
    )
}

/// The request of each credential type, in order.
pub open spec fn credential_queries_json(types: Seq<(String, CredentialType)>) -> Seq<JsonModel> {
    Seq::new(types.len(), |i: int| credential_query_json(types[i].0@, types[i].1.format@, types[i].1.vct@))
}

/// The policies that the verifier applies: signature, expiry and validity checks, and
/// that the issuer is one of `issuers`.
pub open spec fn verifier_policies_json(issuers: Seq<Seq<char>>) -> JsonModel {
    JsonModel::Object(
        seq![
            (
                "vc_policies"@,
                JsonModel::Array(
                    seq![
                        JsonModel::String("signature"@),
                        JsonModel::String("expiration"@),
                        JsonModel::String("not-before"@),
                        JsonModel::Object(
                            seq![
                                ("policy"@, JsonModel::String("allowed-issuer"@)),
                                ("allowed_issuer"@, strings_json(issuers)),
                            ],
                        ),
                    ],
                ),
            ),
        ],
    )
}

/// The request that opens a cross-device verification session for `types`.
pub open spec fn verification_request_json(types: Seq<(String, CredentialType)>, issuers: Seq<Seq<char>>) -> JsonModel {
    JsonModel::Object(
        seq![
            ("flow_type"@, JsonModel::String("cross_device"@)),
            (
                "core_flow"@,
                JsonModel::Object(
                    seq![
                        (
                            "dcql_query"@,
                            JsonModel::Object(seq![("credentials"@, JsonModel::Array(credential_queries_json(types)))]),
                        ),
                        ("policies"@, verifier_policies_json(issuers)),
                    ],
                ),
            ),
        ],
    )
}

/// Why a verification session could not be requested.
#[derive(Debug, PartialEq, Eq)]
pub enum VerifyError {
    /// No credential type was asked for.
    NoCredentialTypes,
}

/// The request that opens a verification session for `types`, accepting credentials
/// from `allowed_issuers`; an error where no type is asked for.
pub fn verification_request(types: &Vec<(String, CredentialType)>, allowed_issuers: &Vec<String>) -> (r: Result<Json, VerifyError>)
    ensures
        types@.len() == 0 ==> r == Err::<Json, VerifyError>(VerifyError::NoCredentialTypes),
        types@.len() > 0 ==> r is Ok && r->Ok_0@ == verification_request_json(types@, crate::text::strs_view(allowed_issuers@)),
{
    if types.len() == 0 {
        return Err(VerifyError::NoCredentialTypes);
    }
    let mut credentials: Vec<Json> = Vec::new();
    let mut i: usize = 0;
    while i < types.len()
        invariant
            i <= types.len(),
            credentials@.len() == i,
            forall|k: int| 0 <= k < i ==> json_model(#[trigger] credentials@[k]) == credential_query_json(
                types@[k].0@,
                types@[k].1.format@,
                types@[k].1.vct@,
            ),
        decreases types.len() - i,
    {
        let (id, ct) = &types[i];
        let meta = object1("vct_values", array1(Json::String(ct.vct.clone())));
        let q = object3("id", Json::String(id.clone()), "format", Json::String(ct.format.clone()), "meta", meta);
        credentials.push(q);
        i = i + 1;
    }
    proof {
        lemma_json_list_model(credentials@, credentials@.len());
        assert(json_list_model(credentials@, credentials@.len()) =~= credential_queries_json(types@));
    }
    let allowed = object2(
        "policy",
        Json::String(owned("allowed-issuer")),
        "allowed_issuer",
        crate::json::strs_json(allowed_issuers),
    );
    let policies = array4(
        Json::String(owned("signature")),
        Json::String(owned("expiration")),
        Json::String(owned("not-before")),
        allowed,
    );
    let core = object2(
        "dcql_query",
        object1("credentials", Json::Array(credentials)),
        "policies",
        object1("vc_policies", policies),
    );
    let r = object2("flow_type", Json::String(owned("cross_device")), "core_flow", core);
    Ok(r)
}

} // verus!
