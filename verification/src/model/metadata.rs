//! The version metadata that a connector publishes, and its JSON form.
use vstd::prelude::*;
use crate::json::{
    Json, JsonError, JsonModel, json_model, json_list_model, lemma_json_list_model, members_model, member, req_str,
    opt_str, opt_strs, opt_member, opt_str_json, opt_strs_json, get_member, get_str, get_opt_str, get_opt_strs,
    push_member, push_opt_member, string_json, opt_string_json, opt_strings_json, lemma_str_list_roundtrip,
};
use crate::text::{opt_str_view, opt_strs_view};
use crate::model::common::lemma_member_names;

verus! {

broadcast use vstd::std_specs::vec::group_vec_axioms;

/// How a protocol endpoint authenticates its callers.
#[derive(Debug, PartialEq)]
pub struct Auth {
    pub protocol: String,
    pub version: String,
    pub profile: Option<Vec<String>>,
}

/// What a `Auth` says.
pub struct AuthModel {
    pub protocol: Seq<char>,
    pub version: Seq<char>,
    pub profile: Option<Seq<Seq<char>>>,
}

impl View for Auth {
    type V = AuthModel;

    open spec fn view(&self) -> AuthModel {
        AuthModel {
            protocol: self.protocol@,
            version: self.version@,
            profile: opt_strs_view(self.profile),
        }
    }
}

/// The members of the JSON form of a `Auth`.
pub open spec fn auth_members(m: AuthModel) -> Seq<(Seq<char>, JsonModel)> {
    opt_member(Seq::empty().push(("protocol"@, JsonModel::String(m.protocol))).push(("version"@, JsonModel::String(m.version))), "profile"@, opt_strs_json(m.profile))
}

/// The JSON form of a `Auth`.
pub open spec fn auth_json(m: AuthModel) -> JsonModel {
    JsonModel::Object(auth_members(m))
}

/// The `Auth` that a JSON value holds, if it holds one.
pub open spec fn auth_from(j: JsonModel) -> Option<AuthModel> {
    match j {
        JsonModel::Object(ms) => match (
            req_str(ms, "protocol"@),
            req_str(ms, "version"@),
            opt_strs(ms, "profile"@),
        ) {
            (Some(x0), Some(x1), Some(x2)) => Some(AuthModel {
                protocol: x0,
                version: x1,
                profile: x2,
            }),
            _ => None,
        },
        _ => None,
    }
}

impl Auth {
    /// The JSON form of this message.
    pub fn to_json(&self) -> (r: Json)
        ensures
            r@ == auth_json(self@),
    {
        let mut ms: Vec<(String, Json)> = Vec::new();
        proof {
            assert(members_model(ms@, ms@.len()) =~= Seq::empty());
        }
        push_member(&mut ms, "protocol", string_json(self.protocol.as_str()));
        push_member(&mut ms, "version", string_json(self.version.as_str()));
        push_opt_member(&mut ms, "profile", opt_strings_json(&self.profile));
        Json::Object(ms)
    }

    /// Reads a `Auth` from JSON.
    pub fn from_json(j: &Json) -> (r: Result<Auth, JsonError>)
        ensures
            match r {
                Ok(m) => auth_from(j@) == Some(m@),
                Err(_) => auth_from(j@) is None,
            },
    {
        match j {
            Json::Object(ms) => {
                let protocol = get_str(ms, "protocol")?;
                let version = get_str(ms, "version")?;
                let profile = get_opt_strs(ms, "profile")?;
                Ok(Auth { protocol, version, profile })
            },
            _ => Err(JsonError),
        }
    }
}

/// Reading back the JSON form of a `Auth` gives the same message.
pub proof fn auth_roundtrip(m: AuthModel)
    ensures
        auth_from(auth_json(m)) == Some(m),
{
    lemma_member_names();
    match m.profile {
        Some(ss) => lemma_str_list_roundtrip(ss),
        None => {},
    }
    reveal_with_fuel(crate::json::member_from, 4);
}

/// An optional member holding a `Auth`: absent or null, or the object.
pub open spec fn opt_auth(ms: Seq<(Seq<char>, JsonModel)>, key: Seq<char>) -> Option<Option<AuthModel>> {
    match member(ms, key) {
        None => Some(None),
        Some(JsonModel::Null) => Some(None),
        Some(j) => match auth_from(j) {
            Some(x) => Some(Some(x)),
            None => None,
        },
    }
}

/// Reads an optional member holding a `Auth`.
fn get_opt_auth(ms: &Vec<(String, Json)>, key: &str) -> (r: Result<Option<Auth>, JsonError>)
    ensures
        match r {
            Ok(v) => opt_auth(members_model(ms@, ms@.len()), key@) == Some(match v {
                Some(x) => Some(x@),
                None => None,
            }),
            Err(_) => opt_auth(members_model(ms@, ms@.len()), key@) is None,
        },
{
    match get_member(ms, key) {
        None => Ok(None),
        Some(Json::Null) => Ok(None),
        Some(j) => match Auth::from_json(j) {
            Ok(x) => Ok(Some(x)),
            Err(e) => Err(e),
        },
    }
}

/// One version of the protocol that a connector speaks, and where.
#[derive(Debug, PartialEq)]
pub struct ProtocolVersion {
    pub version: String,
    pub path: String,
    pub binding: String,
    pub identifier_type: Option<String>,
    pub service_id: Option<String>,
    pub auth: Option<Auth>,
}

/// What a `ProtocolVersion` says.
pub struct ProtocolVersionModel {
    pub version: Seq<char>,
    pub path: Seq<char>,
    pub binding: Seq<char>,
    pub identifier_type: Option<Seq<char>>,
    pub service_id: Option<Seq<char>>,
    pub auth: Option<AuthModel>,
}

impl View for ProtocolVersion {
    type V = ProtocolVersionModel;

    open spec fn view(&self) -> ProtocolVersionModel {
        ProtocolVersionModel {
            version: self.version@,
            path: self.path@,
            binding: self.binding@,
            identifier_type: opt_str_view(self.identifier_type),
            service_id: opt_str_view(self.service_id),
            auth: match self.auth { Some(x) => Some(x@), None => None },
        }
    }
}

/// The members of the JSON form of a `ProtocolVersion`.
pub open spec fn protocol_version_members(m: ProtocolVersionModel) -> Seq<(Seq<char>, JsonModel)> {
    opt_member(opt_member(opt_member(Seq::empty().push(("version"@, JsonModel::String(m.version))).push(("path"@, JsonModel::String(m.path))).push(("binding"@, JsonModel::String(m.binding))), "identifierType"@, opt_str_json(m.identifier_type)), "serviceId"@, opt_str_json(m.service_id)), "auth"@, match m.auth { Some(x) => Some(auth_json(x)), None => None })
}

/// The JSON form of a `ProtocolVersion`.
pub open spec fn protocol_version_json(m: ProtocolVersionModel) -> JsonModel {
    JsonModel::Object(protocol_version_members(m))
}

/// The `ProtocolVersion` that a JSON value holds, if it holds one.
pub open spec fn protocol_version_from(j: JsonModel) -> Option<ProtocolVersionModel> {
    match j {
        JsonModel::Object(ms) => match (
            req_str(ms, "version"@),
            req_str(ms, "path"@),
            req_str(ms, "binding"@),
            opt_str(ms, "identifierType"@),
            opt_str(ms, "serviceId"@),
            opt_auth(ms, "auth"@),
        ) {
            (Some(x0), Some(x1), Some(x2), Some(x3), Some(x4), Some(x5)) => Some(ProtocolVersionModel {
                version: x0,
                path: x1,
                binding: x2,
                identifier_type: x3,
                service_id: x4,
                auth: x5,
            }),
            _ => None,
        },
        _ => None,
    }
}

impl ProtocolVersion {
    /// The JSON form of this message.
    pub fn to_json(&self) -> (r: Json)
        ensures
            r@ == protocol_version_json(self@),
    {
        let mut ms: Vec<(String, Json)> = Vec::new();
        proof {
            assert(members_model(ms@, ms@.len()) =~= Seq::empty());
        }
        push_member(&mut ms, "version", string_json(self.version.as_str()));
        push_member(&mut ms, "path", string_json(self.path.as_str()));
        push_member(&mut ms, "binding", string_json(self.binding.as_str()));
        push_opt_member(&mut ms, "identifierType", opt_string_json(&self.identifier_type));
        push_opt_member(&mut ms, "serviceId", opt_string_json(&self.service_id));
        match &self.auth {
            Some(x) => push_member(&mut ms, "auth", x.to_json()),
            None => {},
        }
        Json::Object(ms)
    }

    /// Reads a `ProtocolVersion` from JSON.
    pub fn from_json(j: &Json) -> (r: Result<ProtocolVersion, JsonError>)
        ensures
            match r {
                Ok(m) => protocol_version_from(j@) == Some(m@),
                Err(_) => protocol_version_from(j@) is None,
            },
    {
        match j {
            Json::Object(ms) => {
                let version = get_str(ms, "version")?;
                let path = get_str(ms, "path")?;
                let binding = get_str(ms, "binding")?;
                let identifier_type = get_opt_str(ms, "identifierType")?;
                let service_id = get_opt_str(ms, "serviceId")?;
                let auth = get_opt_auth(ms, "auth")?;
                Ok(ProtocolVersion { version, path, binding, identifier_type, service_id, auth })
            },
            _ => Err(JsonError),
        }
    }
}

/// Reading back the JSON form of a `ProtocolVersion` gives the same message.
pub proof fn protocol_version_roundtrip(m: ProtocolVersionModel)
    ensures
        protocol_version_from(protocol_version_json(m)) == Some(m),
{
    lemma_member_names();
    match m.auth {
        Some(x) => auth_roundtrip(x),
        None => {},
    }
    reveal_with_fuel(crate::json::member_from, 7);
}

/// The views of a list of `ProtocolVersion`s.
pub open spec fn protocol_versions_view(v: Seq<ProtocolVersion>) -> Seq<ProtocolVersionModel> {
    Seq::new(v.len(), |i: int| v[i]@)
}

/// The JSON array of a list of `ProtocolVersion`s.
pub open spec fn protocol_versions_json(ps: Seq<ProtocolVersionModel>) -> JsonModel {
    JsonModel::Array(Seq::new(ps.len(), |i: int| protocol_version_json(ps[i])))
}

/// The `ProtocolVersion`s that a JSON array holds, if every item holds one.
pub open spec fn protocol_versions_from(items: Seq<JsonModel>) -> Option<Seq<ProtocolVersionModel>> {
    if forall|i: int| 0 <= i < items.len() ==> (#[trigger] protocol_version_from(items[i])) is Some {
        Some(Seq::new(items.len(), |i: int| protocol_version_from(items[i])->Some_0))
    } else {
        None
    }
}

/// Reading back the JSON array of a list of `ProtocolVersion`s gives the same list.
pub proof fn protocol_versions_roundtrip(ps: Seq<ProtocolVersionModel>)
    ensures
        protocol_versions_from(protocol_versions_json(ps)->Array_0) == Some(ps),
        protocol_versions_json(ps) is Array,
{
    let items = protocol_versions_json(ps)->Array_0;
    assert forall|i: int| 0 <= i < items.len() implies #[trigger] protocol_version_from(items[i]) == Some(ps[i]) by {
        protocol_version_roundtrip(ps[i]);
    }
    assert(protocol_versions_from(items) is Some);
    assert(protocol_versions_from(items)->Some_0 =~= ps);
}

/// The JSON array of some `ProtocolVersion`s.
fn protocol_versions_to_json(v: &Vec<ProtocolVersion>) -> (r: Json)
    ensures
        r@ == protocol_versions_json(protocol_versions_view(v@)),
{
    let mut out: Vec<Json> = Vec::new();
    let mut i: usize = 0;
    while i < v.len()
        invariant
            i <= v.len(),
            out@.len() == i,
            forall|k: int| 0 <= k < i ==> json_model(#[trigger] out@[k]) == protocol_version_json(v@[k]@),
        decreases v.len() - i,
    {
        out.push(v[i].to_json());
        i = i + 1;
    }
    proof {
        lemma_json_list_model(out@, out@.len());
        assert(json_list_model(out@, out@.len()) =~= protocol_versions_json(protocol_versions_view(v@))->Array_0);
    }
    Json::Array(out)
}

/// Reads the `ProtocolVersion`s of a JSON array.
fn read_protocol_versions(items: &Vec<Json>) -> (r: Result<Vec<ProtocolVersion>, JsonError>)
    ensures
        match r {
            Ok(v) => protocol_versions_from(json_list_model(items@, items@.len())) == Some(protocol_versions_view(v@)),
            Err(_) => protocol_versions_from(json_list_model(items@, items@.len())) is None,
        },
{
    let ghost l = json_list_model(items@, items@.len());
    proof {
        lemma_json_list_model(items@, items@.len());
    }
    let mut out: Vec<ProtocolVersion> = Vec::new();
    let mut i: usize = 0;
    while i < items.len()
        invariant
            i <= items.len(),
            l == json_list_model(items@, items@.len()),
            l.len() == items@.len(),
            forall|k: int| 0 <= k < items@.len() ==> #[trigger] l[k] == json_model(items@[k]),
            out@.len() == i,
            forall|k: int| 0 <= k < i ==> #[trigger] protocol_version_from(l[k]) == Some(out@[k]@),
        decreases items.len() - i,
    {
        match ProtocolVersion::from_json(&items[i]) {
            Ok(x) => {
                out.push(x);
            },
            Err(e) => {
                assert(protocol_version_from(l[i as int]) is None);
                return Err(e);
            },
        }
        i = i + 1;
    }
    assert(protocol_versions_from(l)->Some_0 =~= protocol_versions_view(out@));
    Ok(out)
}

/// A required member holding a list of `ProtocolVersion`s.
pub open spec fn req_protocol_versions(ms: Seq<(Seq<char>, JsonModel)>, key: Seq<char>) -> Option<Seq<ProtocolVersionModel>> {
    match member(ms, key) {
        Some(JsonModel::Array(items)) => protocol_versions_from(items),
        _ => None,
    }
}

/// Reads a required member holding a list of `ProtocolVersion`s.
fn get_protocol_versions(ms: &Vec<(String, Json)>, key: &str) -> (r: Result<Vec<ProtocolVersion>, JsonError>)
    ensures
        match r {
            Ok(v) => req_protocol_versions(members_model(ms@, ms@.len()), key@) == Some(protocol_versions_view(v@)),
            Err(_) => req_protocol_versions(members_model(ms@, ms@.len()), key@) is None,
        },
{
    match get_member(ms, key) {
        Some(Json::Array(items)) => read_protocol_versions(items),
        _ => Err(JsonError),
    }
}

/// The protocol versions that a connector offers.
#[derive(Debug, PartialEq)]
pub struct VersionResponse {
    pub protocol_versions: Vec<ProtocolVersion>,
}

/// What a `VersionResponse` says.
pub struct VersionResponseModel {
    pub protocol_versions: Seq<ProtocolVersionModel>,
}

impl View for VersionResponse {
    type V = VersionResponseModel;

    open spec fn view(&self) -> VersionResponseModel {
        VersionResponseModel {
            protocol_versions: protocol_versions_view(self.protocol_versions@),
        }
    }
}

/// The members of the JSON form of a `VersionResponse`.
pub open spec fn version_response_members(m: VersionResponseModel) -> Seq<(Seq<char>, JsonModel)> {
    Seq::empty().push(("protocolVersions"@, protocol_versions_json(m.protocol_versions)))
}

/// The JSON form of a `VersionResponse`.
pub open spec fn version_response_json(m: VersionResponseModel) -> JsonModel {
    JsonModel::Object(version_response_members(m))
}

/// The `VersionResponse` that a JSON value holds, if it holds one.
pub open spec fn version_response_from(j: JsonModel) -> Option<VersionResponseModel> {
    match j {
        JsonModel::Object(ms) => match req_protocol_versions(ms, "protocolVersions"@) {
            Some(x0) => Some(VersionResponseModel {
                protocol_versions: x0,
            }),
            _ => None,
        },
        _ => None,
    }
}

impl VersionResponse {
    /// The JSON form of this message.
    pub fn to_json(&self) -> (r: Json)
        ensures
            r@ == version_response_json(self@),
    {
        let mut ms: Vec<(String, Json)> = Vec::new();
        proof {
            assert(members_model(ms@, ms@.len()) =~= Seq::empty());
        }
        push_member(&mut ms, "protocolVersions", protocol_versions_to_json(&self.protocol_versions));
        Json::Object(ms)
    }

    /// Reads a `VersionResponse` from JSON.
    pub fn from_json(j: &Json) -> (r: Result<VersionResponse, JsonError>)
        ensures
            match r {
                Ok(m) => version_response_from(j@) == Some(m@),
                Err(_) => version_response_from(j@) is None,
            },
    {
        match j {
            Json::Object(ms) => {
                let protocol_versions = get_protocol_versions(ms, "protocolVersions")?;
                Ok(VersionResponse { protocol_versions })
            },
            _ => Err(JsonError),
        }
    }
}

/// Reading back the JSON form of a `VersionResponse` gives the same message.
pub proof fn version_response_roundtrip(m: VersionResponseModel)
    ensures
        version_response_from(version_response_json(m)) == Some(m),
{
    lemma_member_names();
    protocol_versions_roundtrip(m.protocol_versions);
    reveal_with_fuel(crate::json::member_from, 2);
}


} // verus!
