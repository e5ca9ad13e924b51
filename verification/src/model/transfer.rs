//! The messages of the transfer process protocol and their JSON forms.
use vstd::prelude::*;
use crate::json::{
    Json, JsonError, JsonModel, json_model, json_list_model, lemma_json_list_model, members_model, member, req_str,
    opt_str, opt_strs, opt_member, opt_str_json, opt_strs_json, str_or_null, get_member, get_str, get_opt_str,
    get_opt_strs, push_member, push_opt_member, string_json, string_or_null, opt_string_json, opt_strings_json, lemma_str_list_roundtrip,
};
use crate::text::{opt_str_view, opt_strs_view, strs_view, decimal, decimal_string};
use crate::model::common::{
    JsonLDContext, JsonLDType, context_json, is_context_json, header_json, header_from, header_members, read_header,
    lemma_member_names, default_context_json,
};

verus! {

broadcast use vstd::std_specs::vec::group_vec_axioms;

/// One property of an endpoint, such as its authorization token.
#[derive(Debug, PartialEq)]
pub struct EndpointProperty {
    pub ld_type: JsonLDType,
    pub name: String,
    pub value: String,
}

/// What a `EndpointProperty` says.
pub struct EndpointPropertyModel {
    pub ld_type: Seq<char>,
    pub name: Seq<char>,
    pub value: Seq<char>,
}

impl View for EndpointProperty {
    type V = EndpointPropertyModel;

    open spec fn view(&self) -> EndpointPropertyModel {
        EndpointPropertyModel {
            ld_type: self.ld_type.name@,
            name: self.name@,
            value: self.value@,
        }
    }
}

/// The members of the JSON form of a `EndpointProperty`.
pub open spec fn endpoint_property_members(m: EndpointPropertyModel) -> Seq<(Seq<char>, JsonModel)> {
    seq![("@type"@, JsonModel::String(m.ld_type))].push(("name"@, JsonModel::String(m.name))).push(("value"@, JsonModel::String(m.value)))
}

/// The JSON form of a `EndpointProperty`.
pub open spec fn endpoint_property_json(m: EndpointPropertyModel) -> JsonModel {
    JsonModel::Object(endpoint_property_members(m))
}

/// The `EndpointProperty` that a JSON value holds, if it holds one.
pub open spec fn endpoint_property_from(j: JsonModel) -> Option<EndpointPropertyModel> {
    match j {
        JsonModel::Object(ms) => match (
            req_str(ms, "@type"@),
            req_str(ms, "name"@),
            req_str(ms, "value"@),
        ) {
            (Some(ty), Some(x0), Some(x1)) => Some(EndpointPropertyModel {
                ld_type: ty,
                name: x0,
                value: x1,
            }),
            _ => None,
        },
        _ => None,
    }
}

impl EndpointProperty {
    /// The JSON form of this message.
    pub fn to_json(&self) -> (r: Json)
        ensures
            r@ == endpoint_property_json(self@),
    {
        let mut ms: Vec<(String, Json)> = Vec::new();
        proof {
            assert(members_model(ms@, ms@.len()) =~= Seq::empty());
        }
        push_member(&mut ms, "@type", string_json(self.ld_type.name.as_str()));
        push_member(&mut ms, "name", string_json(self.name.as_str()));
        push_member(&mut ms, "value", string_json(self.value.as_str()));
        Json::Object(ms)
    }

    /// Reads a `EndpointProperty` from JSON.
    pub fn from_json(j: &Json) -> (r: Result<EndpointProperty, JsonError>)
        ensures
            match r {
                Ok(m) => endpoint_property_from(j@) == Some(m@),
                Err(_) => endpoint_property_from(j@) is None,
            },
    {
        match j {
            Json::Object(ms) => {
                let ld_type = JsonLDType { name: get_str(ms, "@type")? };
                let name = get_str(ms, "name")?;
                let value = get_str(ms, "value")?;
                Ok(EndpointProperty { ld_type, name, value })
            },
            _ => Err(JsonError),
        }
    }
}

/// Reading back the JSON form of a `EndpointProperty` gives the same message.
pub proof fn endpoint_property_roundtrip(m: EndpointPropertyModel)
    ensures
        endpoint_property_from(endpoint_property_json(m)) == Some(m),
{
    lemma_member_names();
    reveal_with_fuel(crate::json::member_from, 4);
}

/// The views of a list of `EndpointProperty`s.
pub open spec fn endpoint_properties_view(v: Seq<EndpointProperty>) -> Seq<EndpointPropertyModel> {
    Seq::new(v.len(), |i: int| v[i]@)
}

/// The JSON array of a list of `EndpointProperty`s.
pub open spec fn endpoint_properties_json(ps: Seq<EndpointPropertyModel>) -> JsonModel {
    JsonModel::Array(Seq::new(ps.len(), |i: int| endpoint_property_json(ps[i])))
}

/// The `EndpointProperty`s that a JSON array holds, if every item holds one.
pub open spec fn endpoint_properties_from(items: Seq<JsonModel>) -> Option<Seq<EndpointPropertyModel>> {
    if forall|i: int| 0 <= i < items.len() ==> (#[trigger] endpoint_property_from(items[i])) is Some {
        Some(Seq::new(items.len(), |i: int| endpoint_property_from(items[i])->Some_0))
    } else {
        None
    }
}

/// Reading back the JSON array of a list of `EndpointProperty`s gives the same list.
pub proof fn endpoint_properties_roundtrip(ps: Seq<EndpointPropertyModel>)
    ensures
        endpoint_properties_from(endpoint_properties_json(ps)->Array_0) == Some(ps),
        endpoint_properties_json(ps) is Array,
{
    let items = endpoint_properties_json(ps)->Array_0;
    assert forall|i: int| 0 <= i < items.len() implies #[trigger] endpoint_property_from(items[i]) == Some(ps[i]) by {
        endpoint_property_roundtrip(ps[i]);
    }
    assert(endpoint_properties_from(items) is Some);
    assert(endpoint_properties_from(items)->Some_0 =~= ps);
}

/// The JSON array of some `EndpointProperty`s.
fn endpoint_properties_to_json(v: &Vec<EndpointProperty>) -> (r: Json)
    ensures
        r@ == endpoint_properties_json(endpoint_properties_view(v@)),
{
    let mut out: Vec<Json> = Vec::new();
    let mut i: usize = 0;
    while i < v.len()
        invariant
            i <= v.len(),
            out@.len() == i,
            forall|k: int| 0 <= k < i ==> json_model(#[trigger] out@[k]) == endpoint_property_json(v@[k]@),
        decreases v.len() - i,
    {
        out.push(v[i].to_json());
        i = i + 1;
    }
    proof {
        lemma_json_list_model(out@, out@.len());
        assert(json_list_model(out@, out@.len()) =~= endpoint_properties_json(endpoint_properties_view(v@))->Array_0);
    }
    Json::Array(out)
}

/// Reads the `EndpointProperty`s of a JSON array.
fn read_endpoint_properties(items: &Vec<Json>) -> (r: Result<Vec<EndpointProperty>, JsonError>)
    ensures
        match r {
            Ok(v) => endpoint_properties_from(json_list_model(items@, items@.len())) == Some(endpoint_properties_view(v@)),
            Err(_) => endpoint_properties_from(json_list_model(items@, items@.len())) is None,
        },
{
    let ghost l = json_list_model(items@, items@.len());
    proof {
        lemma_json_list_model(items@, items@.len());
    }
    let mut out: Vec<EndpointProperty> = Vec::new();
    let mut i: usize = 0;
    while i < items.len()
        invariant
            i <= items.len(),
            l == json_list_model(items@, items@.len()),
            l.len() == items@.len(),
            forall|k: int| 0 <= k < items@.len() ==> #[trigger] l[k] == json_model(items@[k]),
            out@.len() == i,
            forall|k: int| 0 <= k < i ==> #[trigger] endpoint_property_from(l[k]) == Some(out@[k]@),
        decreases items.len() - i,
    {
        match EndpointProperty::from_json(&items[i]) {
            Ok(x) => {
                out.push(x);
            },
            Err(e) => {
                assert(endpoint_property_from(l[i as int]) is None);
                return Err(e);
            },
        }
        i = i + 1;
    }
    assert(endpoint_properties_from(l)->Some_0 =~= endpoint_properties_view(out@));
    Ok(out)
}

/// An optional member holding a list of `EndpointProperty`s: absent or null, or an array.
pub open spec fn opt_endpoint_properties(ms: Seq<(Seq<char>, JsonModel)>, key: Seq<char>) -> Option<Option<Seq<EndpointPropertyModel>>> {
    match member(ms, key) {
        None => Some(None),
        Some(JsonModel::Null) => Some(None),
        Some(JsonModel::Array(items)) => match endpoint_properties_from(items) {
            Some(v) => Some(Some(v)),
            None => None,
        },
        _ => None,
    }
}

/// Reads an optional member holding a list of `EndpointProperty`s.
fn get_opt_endpoint_properties(ms: &Vec<(String, Json)>, key: &str) -> (r: Result<Option<Vec<EndpointProperty>>, JsonError>)
    ensures
        match r {
            Ok(v) => opt_endpoint_properties(members_model(ms@, ms@.len()), key@) == Some(match v {
                Some(v) => Some(endpoint_properties_view(v@)),
                None => None,
            }),
            Err(_) => opt_endpoint_properties(members_model(ms@, ms@.len()), key@) is None,
        },
{
    match get_member(ms, key) {
        None => Ok(None),
        Some(Json::Null) => Ok(None),
        Some(Json::Array(items)) => match read_endpoint_properties(items) {
            Ok(v) => Ok(Some(v)),
            Err(e) => Err(e),
        },
        _ => Err(JsonError),
    }
}

/// Where and how the data of a transfer can be reached.
#[derive(Debug, PartialEq)]
pub struct DataAddress {
    pub ld_type: JsonLDType,
    pub endpoint_type: String,
    pub endpoint: Option<String>,
    pub endpoint_properties: Option<Vec<EndpointProperty>>,
}

/// What a `DataAddress` says.
pub struct DataAddressModel {
    pub ld_type: Seq<char>,
    pub endpoint_type: Seq<char>,
    pub endpoint: Option<Seq<char>>,
    pub endpoint_properties: Option<Seq<EndpointPropertyModel>>,
}

impl View for DataAddress {
    type V = DataAddressModel;

    open spec fn view(&self) -> DataAddressModel {
        DataAddressModel {
            ld_type: self.ld_type.name@,
            endpoint_type: self.endpoint_type@,
            endpoint: opt_str_view(self.endpoint),
            endpoint_properties: match self.endpoint_properties { Some(v) => Some(endpoint_properties_view(v@)), None => None },
        }
    }
}

/// The members of the JSON form of a `DataAddress`.
pub open spec fn data_address_members(m: DataAddressModel) -> Seq<(Seq<char>, JsonModel)> {
    seq![("@type"@, JsonModel::String(m.ld_type))].push(("endpointType"@, JsonModel::String(m.endpoint_type))).push(("endpoint"@, str_or_null(m.endpoint))).push(("endpointProperties"@, match m.endpoint_properties { Some(v) => endpoint_properties_json(v), None => JsonModel::Null }))
}

/// The JSON form of a `DataAddress`.
pub open spec fn data_address_json(m: DataAddressModel) -> JsonModel {
    JsonModel::Object(data_address_members(m))
}

/// The `DataAddress` that a JSON value holds, if it holds one.
pub open spec fn data_address_from(j: JsonModel) -> Option<DataAddressModel> {
    match j {
        JsonModel::Object(ms) => match (
            req_str(ms, "@type"@),
            req_str(ms, "endpointType"@),
            opt_str(ms, "endpoint"@),
            opt_endpoint_properties(ms, "endpointProperties"@),
        ) {
            (Some(ty), Some(x0), Some(x1), Some(x2)) => Some(DataAddressModel {
                ld_type: ty,
                endpoint_type: x0,
                endpoint: x1,
                endpoint_properties: x2,
            }),
            _ => None,
        },
        _ => None,
    }
}

impl DataAddress {
    /// The JSON form of this message.
    pub fn to_json(&self) -> (r: Json)
        ensures
            r@ == data_address_json(self@),
    {
        let mut ms: Vec<(String, Json)> = Vec::new();
        proof {
            assert(members_model(ms@, ms@.len()) =~= Seq::empty());
        }
        push_member(&mut ms, "@type", string_json(self.ld_type.name.as_str()));
        push_member(&mut ms, "endpointType", string_json(self.endpoint_type.as_str()));
        push_member(&mut ms, "endpoint", string_or_null(&self.endpoint));
        match &self.endpoint_properties {
            Some(v) => push_member(&mut ms, "endpointProperties", endpoint_properties_to_json(v)),
            None => push_member(&mut ms, "endpointProperties", Json::Null),
        }
        Json::Object(ms)
    }

    /// Reads a `DataAddress` from JSON.
    pub fn from_json(j: &Json) -> (r: Result<DataAddress, JsonError>)
        ensures
            match r {
                Ok(m) => data_address_from(j@) == Some(m@),
                Err(_) => data_address_from(j@) is None,
            },
    {
        match j {
            Json::Object(ms) => {
                let ld_type = JsonLDType { name: get_str(ms, "@type")? };
                let endpoint_type = get_str(ms, "endpointType")?;
                let endpoint = get_opt_str(ms, "endpoint")?;
                let endpoint_properties = get_opt_endpoint_properties(ms, "endpointProperties")?;
                Ok(DataAddress { ld_type, endpoint_type, endpoint, endpoint_properties })
            },
            _ => Err(JsonError),
        }
    }
}

/// Reading back the JSON form of a `DataAddress` gives the same message.
pub proof fn data_address_roundtrip(m: DataAddressModel)
    ensures
        data_address_from(data_address_json(m)) == Some(m),
{
    lemma_member_names();
    match m.endpoint_properties {
        Some(v) => endpoint_properties_roundtrip(v),
        None => {},
    }
    reveal_with_fuel(crate::json::member_from, 5);
}

/// An optional member holding a `DataAddress`: absent or null, or the object.
pub open spec fn opt_data_address(ms: Seq<(Seq<char>, JsonModel)>, key: Seq<char>) -> Option<Option<DataAddressModel>> {
    match member(ms, key) {
        None => Some(None),
        Some(JsonModel::Null) => Some(None),
        Some(j) => match data_address_from(j) {
            Some(x) => Some(Some(x)),
            None => None,
        },
    }
}

/// Reads an optional member holding a `DataAddress`.
fn get_opt_data_address(ms: &Vec<(String, Json)>, key: &str) -> (r: Result<Option<DataAddress>, JsonError>)
    ensures
        match r {
            Ok(v) => opt_data_address(members_model(ms@, ms@.len()), key@) == Some(match v {
                Some(x) => Some(x@),
                None => None,
            }),
            Err(_) => opt_data_address(members_model(ms@, ms@.len()), key@) is None,
        },
{
    match get_member(ms, key) {
        None => Ok(None),
        Some(Json::Null) => Ok(None),
        Some(j) => match DataAddress::from_json(j) {
            Ok(x) => Ok(Some(x)),
            Err(e) => Err(e),
        },
    }
}

/// The state of a transfer process, as one party reports it.
#[derive(Debug, PartialEq)]
pub struct TransferProcess {
    pub context: JsonLDContext,
    pub ld_type: JsonLDType,
    pub provider_pid: String,
    pub consumer_pid: String,
    pub state: String,
}

/// What a `TransferProcess` says.
pub struct TransferProcessModel {
    pub context: JsonModel,
    pub ld_type: Seq<char>,
    pub provider_pid: Seq<char>,
    pub consumer_pid: Seq<char>,
    pub state: Seq<char>,
}

impl View for TransferProcess {
    type V = TransferProcessModel;

    open spec fn view(&self) -> TransferProcessModel {
        TransferProcessModel {
            context: context_json(self.context.context),
            ld_type: self.ld_type.name@,
            provider_pid: self.provider_pid@,
            consumer_pid: self.consumer_pid@,
            state: self.state@,
        }
    }
}

/// The members of the JSON form of a `TransferProcess`.
pub open spec fn transfer_process_members(m: TransferProcessModel) -> Seq<(Seq<char>, JsonModel)> {
    header_json(m.context, m.ld_type).push(("providerPid"@, JsonModel::String(m.provider_pid))).push(("consumerPid"@, JsonModel::String(m.consumer_pid))).push(("state"@, JsonModel::String(m.state)))
}

/// The JSON form of a `TransferProcess`.
pub open spec fn transfer_process_json(m: TransferProcessModel) -> JsonModel {
    JsonModel::Object(transfer_process_members(m))
}

/// The `TransferProcess` that a JSON value holds, if it holds one.
pub open spec fn transfer_process_from(j: JsonModel) -> Option<TransferProcessModel> {
    match j {
        JsonModel::Object(ms) => match (
            header_from(ms),
            req_str(ms, "providerPid"@),
            req_str(ms, "consumerPid"@),
            req_str(ms, "state"@),
        ) {
            (Some(h), Some(x0), Some(x1), Some(x2)) => Some(TransferProcessModel {
                context: h.0,
                ld_type: h.1,
                provider_pid: x0,
                consumer_pid: x1,
                state: x2,
            }),
            _ => None,
        },
        _ => None,
    }
}

impl TransferProcess {
    /// The JSON form of this message.
    pub fn to_json(&self) -> (r: Json)
        ensures
            r@ == transfer_process_json(self@),
    {
        let mut ms = header_members(&self.context, &self.ld_type);
        push_member(&mut ms, "providerPid", string_json(self.provider_pid.as_str()));
        push_member(&mut ms, "consumerPid", string_json(self.consumer_pid.as_str()));
        push_member(&mut ms, "state", string_json(self.state.as_str()));
        Json::Object(ms)
    }

    /// Reads a `TransferProcess` from JSON.
    pub fn from_json(j: &Json) -> (r: Result<TransferProcess, JsonError>)
        ensures
            match r {
                Ok(m) => transfer_process_from(j@) == Some(m@),
                Err(_) => transfer_process_from(j@) is None,
            },
    {
        match j {
            Json::Object(ms) => {
                let (context, ld_type) = read_header(ms)?;
                let provider_pid = get_str(ms, "providerPid")?;
                let consumer_pid = get_str(ms, "consumerPid")?;
                let state = get_str(ms, "state")?;
                Ok(TransferProcess { context, ld_type, provider_pid, consumer_pid, state })
            },
            _ => Err(JsonError),
        }
    }
}

/// Reading back the JSON form of a `TransferProcess` gives the same message.
pub proof fn transfer_process_roundtrip(m: TransferProcessModel)
    requires
        is_context_json(m.context),
    ensures
        transfer_process_from(transfer_process_json(m)) == Some(m),
{
    lemma_member_names();
    reveal_with_fuel(crate::json::member_from, 6);
}

/// A consumer's request to start a transfer under an agreement.
#[derive(Debug, PartialEq)]
pub struct TransferRequest {
    pub context: JsonLDContext,
    pub ld_type: JsonLDType,
    pub agreement_id: String,
    pub format: String,
    pub callback_address: String,
    pub consumer_pid: String,
    pub data_address: Option<DataAddress>,
}

/// What a `TransferRequest` says.
pub struct TransferRequestModel {
    pub context: JsonModel,
    pub ld_type: Seq<char>,
    pub agreement_id: Seq<char>,
    pub format: Seq<char>,
    pub callback_address: Seq<char>,
    pub consumer_pid: Seq<char>,
    pub data_address: Option<DataAddressModel>,
}

impl View for TransferRequest {
    type V = TransferRequestModel;

    open spec fn view(&self) -> TransferRequestModel {
        TransferRequestModel {
            context: context_json(self.context.context),
            ld_type: self.ld_type.name@,
            agreement_id: self.agreement_id@,
            format: self.format@,
            callback_address: self.callback_address@,
            consumer_pid: self.consumer_pid@,
            data_address: match self.data_address { Some(x) => Some(x@), None => None },
        }
    }
}

/// The members of the JSON form of a `TransferRequest`.
pub open spec fn transfer_request_members(m: TransferRequestModel) -> Seq<(Seq<char>, JsonModel)> {
    opt_member(header_json(m.context, m.ld_type).push(("agreementId"@, JsonModel::String(m.agreement_id))).push(("format"@, JsonModel::String(m.format))).push(("callbackAddress"@, JsonModel::String(m.callback_address))).push(("consumerPid"@, JsonModel::String(m.consumer_pid))), "dataAddress"@, match m.data_address { Some(x) => Some(data_address_json(x)), None => None })
}

/// The JSON form of a `TransferRequest`.
pub open spec fn transfer_request_json(m: TransferRequestModel) -> JsonModel {
    JsonModel::Object(transfer_request_members(m))
}

/// The `TransferRequest` that a JSON value holds, if it holds one.
pub open spec fn transfer_request_from(j: JsonModel) -> Option<TransferRequestModel> {
    match j {
        JsonModel::Object(ms) => match (
            header_from(ms),
            req_str(ms, "agreementId"@),
            req_str(ms, "format"@),
            req_str(ms, "callbackAddress"@),
            req_str(ms, "consumerPid"@),
            opt_data_address(ms, "dataAddress"@),
        ) {
            (Some(h), Some(x0), Some(x1), Some(x2), Some(x3), Some(x4)) => Some(TransferRequestModel {
                context: h.0,
                ld_type: h.1,
                agreement_id: x0,
                format: x1,
                callback_address: x2,
                consumer_pid: x3,
                data_address: x4,
            }),
            _ => None,
        },
        _ => None,
    }
}

impl TransferRequest {
    /// The JSON form of this message.
    pub fn to_json(&self) -> (r: Json)
        ensures
            r@ == transfer_request_json(self@),
    {
        let mut ms = header_members(&self.context, &self.ld_type);
        push_member(&mut ms, "agreementId", string_json(self.agreement_id.as_str()));
        push_member(&mut ms, "format", string_json(self.format.as_str()));
        push_member(&mut ms, "callbackAddress", string_json(self.callback_address.as_str()));
        push_member(&mut ms, "consumerPid", string_json(self.consumer_pid.as_str()));
        match &self.data_address {
            Some(x) => push_member(&mut ms, "dataAddress", x.to_json()),
            None => {},
        }
        Json::Object(ms)
    }

    /// Reads a `TransferRequest` from JSON.
    pub fn from_json(j: &Json) -> (r: Result<TransferRequest, JsonError>)
        ensures
            match r {
                Ok(m) => transfer_request_from(j@) == Some(m@),
                Err(_) => transfer_request_from(j@) is None,
            },
    {
        match j {
            Json::Object(ms) => {
                let (context, ld_type) = read_header(ms)?;
                let agreement_id = get_str(ms, "agreementId")?;
                let format = get_str(ms, "format")?;
                let callback_address = get_str(ms, "callbackAddress")?;
                let consumer_pid = get_str(ms, "consumerPid")?;
                let data_address = get_opt_data_address(ms, "dataAddress")?;
                Ok(TransferRequest { context, ld_type, agreement_id, format, callback_address, consumer_pid, data_address })
            },
            _ => Err(JsonError),
        }
    }
}

/// Reading back the JSON form of a `TransferRequest` gives the same message.
pub proof fn transfer_request_roundtrip(m: TransferRequestModel)
    requires
        is_context_json(m.context),
    ensures
        transfer_request_from(transfer_request_json(m)) == Some(m),
{
    lemma_member_names();
    match m.data_address {
        Some(x) => data_address_roundtrip(x),
        None => {},
    }
    reveal_with_fuel(crate::json::member_from, 8);
}

/// The provider's notice that a transfer has started.
#[derive(Debug, PartialEq)]
pub struct TransferStart {
    pub context: JsonLDContext,
    pub ld_type: JsonLDType,
    pub provider_pid: String,
    pub consumer_pid: String,
    pub data_address: Option<DataAddress>,
}

/// What a `TransferStart` says.
pub struct TransferStartModel {
    pub context: JsonModel,
    pub ld_type: Seq<char>,
    pub provider_pid: Seq<char>,
    pub consumer_pid: Seq<char>,
    pub data_address: Option<DataAddressModel>,
}

impl View for TransferStart {
    type V = TransferStartModel;

    open spec fn view(&self) -> TransferStartModel {
        TransferStartModel {
            context: context_json(self.context.context),
            ld_type: self.ld_type.name@,
            provider_pid: self.provider_pid@,
            consumer_pid: self.consumer_pid@,
            data_address: match self.data_address { Some(x) => Some(x@), None => None },
        }
    }
}

/// The members of the JSON form of a `TransferStart`.
pub open spec fn transfer_start_members(m: TransferStartModel) -> Seq<(Seq<char>, JsonModel)> {
    header_json(m.context, m.ld_type).push(("providerPid"@, JsonModel::String(m.provider_pid))).push(("consumerPid"@, JsonModel::String(m.consumer_pid))).push(("dataAddress"@, match m.data_address { Some(x) => data_address_json(x), None => JsonModel::Null }))
}

/// The JSON form of a `TransferStart`.
pub open spec fn transfer_start_json(m: TransferStartModel) -> JsonModel {
    JsonModel::Object(transfer_start_members(m))
}

/// The `TransferStart` that a JSON value holds, if it holds one.
pub open spec fn transfer_start_from(j: JsonModel) -> Option<TransferStartModel> {
    match j {
        JsonModel::Object(ms) => match (
            header_from(ms),
            req_str(ms, "providerPid"@),
            req_str(ms, "consumerPid"@),
            opt_data_address(ms, "dataAddress"@),
        ) {
            (Some(h), Some(x0), Some(x1), Some(x2)) => Some(TransferStartModel {
                context: h.0,
                ld_type: h.1,
                provider_pid: x0,
                consumer_pid: x1,
                data_address: x2,
            }),
            _ => None,
        },
        _ => None,
    }
}

impl TransferStart {
    /// The JSON form of this message.
    pub fn to_json(&self) -> (r: Json)
        ensures
            r@ == transfer_start_json(self@),
    {
        let mut ms = header_members(&self.context, &self.ld_type);
        push_member(&mut ms, "providerPid", string_json(self.provider_pid.as_str()));
        push_member(&mut ms, "consumerPid", string_json(self.consumer_pid.as_str()));
        match &self.data_address {
            Some(x) => push_member(&mut ms, "dataAddress", x.to_json()),
            None => push_member(&mut ms, "dataAddress", Json::Null),
        }
        Json::Object(ms)
    }

    /// Reads a `TransferStart` from JSON.
    pub fn from_json(j: &Json) -> (r: Result<TransferStart, JsonError>)
        ensures
            match r {
                Ok(m) => transfer_start_from(j@) == Some(m@),
                Err(_) => transfer_start_from(j@) is None,
            },
    {
        match j {
            Json::Object(ms) => {
                let (context, ld_type) = read_header(ms)?;
                let provider_pid = get_str(ms, "providerPid")?;
                let consumer_pid = get_str(ms, "consumerPid")?;
                let data_address = get_opt_data_address(ms, "dataAddress")?;
                Ok(TransferStart { context, ld_type, provider_pid, consumer_pid, data_address })
            },
            _ => Err(JsonError),
        }
    }
}

/// Reading back the JSON form of a `TransferStart` gives the same message.
pub proof fn transfer_start_roundtrip(m: TransferStartModel)
    requires
        is_context_json(m.context),
    ensures
        transfer_start_from(transfer_start_json(m)) == Some(m),
{
    lemma_member_names();
    match m.data_address {
        Some(x) => data_address_roundtrip(x),
        None => {},
    }
    reveal_with_fuel(crate::json::member_from, 6);
}

/// A transfer message that carries an optional code and reason: a suspension, a termination or an error.
#[derive(Debug, PartialEq)]
pub struct AbstractTransferCode {
    pub context: JsonLDContext,
    pub ld_type: JsonLDType,
    pub provider_pid: String,
    pub consumer_pid: String,
    pub code: Option<String>,
    pub reason: Option<Vec<String>>,
}

/// What a `AbstractTransferCode` says.
pub struct AbstractTransferCodeModel {
    pub context: JsonModel,
    pub ld_type: Seq<char>,
    pub provider_pid: Seq<char>,
    pub consumer_pid: Seq<char>,
    pub code: Option<Seq<char>>,
    pub reason: Option<Seq<Seq<char>>>,
}

impl View for AbstractTransferCode {
    type V = AbstractTransferCodeModel;

    open spec fn view(&self) -> AbstractTransferCodeModel {
        AbstractTransferCodeModel {
            context: context_json(self.context.context),
            ld_type: self.ld_type.name@,
            provider_pid: self.provider_pid@,
            consumer_pid: self.consumer_pid@,
            code: opt_str_view(self.code),
            reason: opt_strs_view(self.reason),
        }
    }
}

/// The members of the JSON form of a `AbstractTransferCode`.
pub open spec fn abstract_transfer_code_members(m: AbstractTransferCodeModel) -> Seq<(Seq<char>, JsonModel)> {
    opt_member(opt_member(header_json(m.context, m.ld_type).push(("providerPid"@, JsonModel::String(m.provider_pid))).push(("consumerPid"@, JsonModel::String(m.consumer_pid))), "code"@, opt_str_json(m.code)), "reason"@, opt_strs_json(m.reason))
}

/// The JSON form of a `AbstractTransferCode`.
pub open spec fn abstract_transfer_code_json(m: AbstractTransferCodeModel) -> JsonModel {
    JsonModel::Object(abstract_transfer_code_members(m))
}

/// The `AbstractTransferCode` that a JSON value holds, if it holds one.
pub open spec fn abstract_transfer_code_from(j: JsonModel) -> Option<AbstractTransferCodeModel> {
    match j {
        JsonModel::Object(ms) => match (
            header_from(ms),
            req_str(ms, "providerPid"@),
            req_str(ms, "consumerPid"@),
            opt_str(ms, "code"@),
            opt_strs(ms, "reason"@),
        ) {
            (Some(h), Some(x0), Some(x1), Some(x2), Some(x3)) => Some(AbstractTransferCodeModel {
                context: h.0,
                ld_type: h.1,
                provider_pid: x0,
                consumer_pid: x1,
                code: x2,
                reason: x3,
            }),
            _ => None,
        },
        _ => None,
    }
}

impl AbstractTransferCode {
    /// The JSON form of this message.
    pub fn to_json(&self) -> (r: Json)
        ensures
            r@ == abstract_transfer_code_json(self@),
    {
        let mut ms = header_members(&self.context, &self.ld_type);
        push_member(&mut ms, "providerPid", string_json(self.provider_pid.as_str()));
        push_member(&mut ms, "consumerPid", string_json(self.consumer_pid.as_str()));
        push_opt_member(&mut ms, "code", opt_string_json(&self.code));
        push_opt_member(&mut ms, "reason", opt_strings_json(&self.reason));
        Json::Object(ms)
    }

    /// Reads a `AbstractTransferCode` from JSON.
    pub fn from_json(j: &Json) -> (r: Result<AbstractTransferCode, JsonError>)
        ensures
            match r {
                Ok(m) => abstract_transfer_code_from(j@) == Some(m@),
                Err(_) => abstract_transfer_code_from(j@) is None,
            },
    {
        match j {
            Json::Object(ms) => {
                let (context, ld_type) = read_header(ms)?;
                let provider_pid = get_str(ms, "providerPid")?;
                let consumer_pid = get_str(ms, "consumerPid")?;
                let code = get_opt_str(ms, "code")?;
                let reason = get_opt_strs(ms, "reason")?;
                Ok(AbstractTransferCode { context, ld_type, provider_pid, consumer_pid, code, reason })
            },
            _ => Err(JsonError),
        }
    }
}

/// Reading back the JSON form of a `AbstractTransferCode` gives the same message.
pub proof fn abstract_transfer_code_roundtrip(m: AbstractTransferCodeModel)
    requires
        is_context_json(m.context),
    ensures
        abstract_transfer_code_from(abstract_transfer_code_json(m)) == Some(m),
{
    lemma_member_names();
    match m.reason {
        Some(ss) => lemma_str_list_roundtrip(ss),
        None => {},
    }
    reveal_with_fuel(crate::json::member_from, 7);
}

/// The notice that a transfer is complete.
#[derive(Debug, PartialEq)]
pub struct TransferCompletion {
    pub context: JsonLDContext,
    pub ld_type: JsonLDType,
    pub provider_pid: String,
    pub consumer_pid: String,
}

/// What a `TransferCompletion` says.
pub struct TransferCompletionModel {
    pub context: JsonModel,
    pub ld_type: Seq<char>,
    pub provider_pid: Seq<char>,
    pub consumer_pid: Seq<char>,
}

impl View for TransferCompletion {
    type V = TransferCompletionModel;

    open spec fn view(&self) -> TransferCompletionModel {
        TransferCompletionModel {
            context: context_json(self.context.context),
            ld_type: self.ld_type.name@,
            provider_pid: self.provider_pid@,
            consumer_pid: self.consumer_pid@,
        }
    }
}

/// The members of the JSON form of a `TransferCompletion`.
pub open spec fn transfer_completion_members(m: TransferCompletionModel) -> Seq<(Seq<char>, JsonModel)> {
    header_json(m.context, m.ld_type).push(("providerPid"@, JsonModel::String(m.provider_pid))).push(("consumerPid"@, JsonModel::String(m.consumer_pid)))
}

/// The JSON form of a `TransferCompletion`.
pub open spec fn transfer_completion_json(m: TransferCompletionModel) -> JsonModel {
    JsonModel::Object(transfer_completion_members(m))
}

/// The `TransferCompletion` that a JSON value holds, if it holds one.
pub open spec fn transfer_completion_from(j: JsonModel) -> Option<TransferCompletionModel> {
    match j {
        JsonModel::Object(ms) => match (
            header_from(ms),
            req_str(ms, "providerPid"@),
            req_str(ms, "consumerPid"@),
        ) {
            (Some(h), Some(x0), Some(x1)) => Some(TransferCompletionModel {
                context: h.0,
                ld_type: h.1,
                provider_pid: x0,
                consumer_pid: x1,
            }),
            _ => None,
        },
        _ => None,
    }
}

impl TransferCompletion {
    /// The JSON form of this message.
    pub fn to_json(&self) -> (r: Json)
        ensures
            r@ == transfer_completion_json(self@),
    {
        let mut ms = header_members(&self.context, &self.ld_type);
        push_member(&mut ms, "providerPid", string_json(self.provider_pid.as_str()));
        push_member(&mut ms, "consumerPid", string_json(self.consumer_pid.as_str()));
        Json::Object(ms)
    }

    /// Reads a `TransferCompletion` from JSON.
    pub fn from_json(j: &Json) -> (r: Result<TransferCompletion, JsonError>)
        ensures
            match r {
                Ok(m) => transfer_completion_from(j@) == Some(m@),
                Err(_) => transfer_completion_from(j@) is None,
            },
    {
        match j {
            Json::Object(ms) => {
                let (context, ld_type) = read_header(ms)?;
                let provider_pid = get_str(ms, "providerPid")?;
                let consumer_pid = get_str(ms, "consumerPid")?;
                Ok(TransferCompletion { context, ld_type, provider_pid, consumer_pid })
            },
            _ => Err(JsonError),
        }
    }
}

/// Reading back the JSON form of a `TransferCompletion` gives the same message.
pub proof fn transfer_completion_roundtrip(m: TransferCompletionModel)
    requires
        is_context_json(m.context),
    ensures
        transfer_completion_from(transfer_completion_json(m)) == Some(m),
{
    lemma_member_names();
    reveal_with_fuel(crate::json::member_from, 5);
}

// ---------------------------------------------------------------------------
// Building messages
// ---------------------------------------------------------------------------

impl EndpointProperty {
    /// The property `name` with value `value`.
    pub fn new(name: String, value: String) -> (r: EndpointProperty)
        ensures
            r@ == (EndpointPropertyModel { ld_type: "EndpointProperty"@, name: name@, value: value@ }),
    {
        EndpointProperty { ld_type: JsonLDType::named("EndpointProperty"), name, value }
    }
}

/// The endpoint type of plain HTTP access.
pub const HTTP_ENDPOINT_TYPE: &'static str = "https://w3id.org/idsa/v4.1/HTTP";

impl DataAddress {
    /// An HTTP endpoint that takes `token` as its bearer token.
    pub fn new_http_with_token(endpoint: String, token: String) -> (r: DataAddress)
        ensures
            r@ == (DataAddressModel {
                ld_type: "DataAddress"@,
                endpoint_type: HTTP_ENDPOINT_TYPE@,
                endpoint: Some(endpoint@),
                endpoint_properties: Some(
                    seq![
                        EndpointPropertyModel { ld_type: "EndpointProperty"@, name: "authorization"@, value: token@ },
                        EndpointPropertyModel { ld_type: "EndpointProperty"@, name: "authType"@, value: "bearer"@ },
                    ],
                ),
            }),
    {
        let mut properties: Vec<EndpointProperty> = Vec::new();
        properties.push(EndpointProperty::new(crate::text::owned("authorization"), token));
        properties.push(EndpointProperty::new(crate::text::owned("authType"), crate::text::owned("bearer")));
        let r = DataAddress {
            ld_type: JsonLDType::named("DataAddress"),
            endpoint_type: crate::text::owned(HTTP_ENDPOINT_TYPE),
            endpoint: Some(endpoint),
            endpoint_properties: Some(properties),
        };
        proof {
            assert(endpoint_properties_view(properties@) =~= seq![
                EndpointPropertyModel { ld_type: "EndpointProperty"@, name: "authorization"@, value: token@ },
                EndpointPropertyModel { ld_type: "EndpointProperty"@, name: "authType"@, value: "bearer"@ },
            ]);
        }
        r
    }
}

impl TransferRequest {
    /// A request to transfer the data of agreement `agreement_id` in `format`.
    pub fn new(
        agreement_id: String,
        format: String,
        callback_address: String,
        consumer_pid: String,
        data_address: Option<DataAddress>,
    ) -> (r: TransferRequest)
        ensures
            r@ == (TransferRequestModel {
                context: default_context_json(),
                ld_type: "TransferRequestMessage"@,
                agreement_id: agreement_id@,
                format: format@,
                callback_address: callback_address@,
                consumer_pid: consumer_pid@,
                data_address: match data_address {
                    Some(x) => Some(x@),
                    None => None,
                },
            }),
    {
        TransferRequest {
            context: JsonLDContext::default(),
            ld_type: JsonLDType::named("TransferRequestMessage"),
            agreement_id,
            format,
            callback_address,
            consumer_pid,
            data_address,
        }
    }
}

impl AbstractTransferCode {
    /// A message of type `ld_type` with an optional code and reason.
    pub fn new(
        ld_type: &str,
        provider_pid: String,
        consumer_pid: String,
        code: Option<String>,
        reason: Option<Vec<String>>,
    ) -> (r: AbstractTransferCode)
        ensures
            r@ == (AbstractTransferCodeModel {
                context: default_context_json(),
                ld_type: ld_type@,
                provider_pid: provider_pid@,
                consumer_pid: consumer_pid@,
                code: opt_str_view(code),
                reason: opt_strs_view(reason),
            }),
    {
        AbstractTransferCode {
            context: JsonLDContext::default(),
            ld_type: JsonLDType::named(ld_type),
            provider_pid,
            consumer_pid,
            code,
            reason,
        }
    }
}

impl TransferCompletion {
    /// The notice that transfer `provider_pid` / `consumer_pid` is complete.
    pub fn new(provider_pid: String, consumer_pid: String) -> (r: TransferCompletion)
        ensures
            r@ == (TransferCompletionModel {
                context: default_context_json(),
                ld_type: "TransferCompletionMessage"@,
                provider_pid: provider_pid@,
                consumer_pid: consumer_pid@,
            }),
    {
        TransferCompletion {
            context: JsonLDContext::default(),
            ld_type: JsonLDType::named("TransferCompletionMessage"),
            provider_pid,
            consumer_pid,
        }
    }
}

impl TransferProcess {
    /// The message that starts the transfer, with the address of the data if it is pushed.
    pub fn start(provider_pid: String, consumer_pid: String, data_address: Option<DataAddress>) -> (r: TransferStart)
        ensures
            r@ == (TransferStartModel {
                context: default_context_json(),
                ld_type: "TransferStartMessage"@,
                provider_pid: provider_pid@,
                consumer_pid: consumer_pid@,
                data_address: match data_address {
                    Some(x) => Some(x@),
                    None => None,
                },
            }),
    {
        TransferStart {
            context: JsonLDContext::default(),
            ld_type: JsonLDType::named("TransferStartMessage"),
            provider_pid,
            consumer_pid,
            data_address,
        }
    }

    /// The message that terminates the transfer.
    pub fn terminate(
        provider_pid: String,
        consumer_pid: String,
        code: Option<String>,
        reason: Option<Vec<String>>,
    ) -> (r: AbstractTransferCode)
        ensures
            r@ == (AbstractTransferCodeModel {
                context: default_context_json(),
                ld_type: "TransferTerminationMessage"@,
                provider_pid: provider_pid@,
                consumer_pid: consumer_pid@,
                code: opt_str_view(code),
                reason: opt_strs_view(reason),
            }),
    {
        AbstractTransferCode::new("TransferTerminationMessage", provider_pid, consumer_pid, code, reason)
    }

    /// The message that suspends the transfer.
    pub fn suspend(
        provider_pid: String,
        consumer_pid: String,
        code: Option<String>,
        reason: Option<Vec<String>>,
    ) -> (r: AbstractTransferCode)
        ensures
            r@ == (AbstractTransferCodeModel {
                context: default_context_json(),
                ld_type: "TransferSuspensionMessage"@,
                provider_pid: provider_pid@,
                consumer_pid: consumer_pid@,
                code: opt_str_view(code),
                reason: opt_strs_view(reason),
            }),
    {
        AbstractTransferCode::new("TransferSuspensionMessage", provider_pid, consumer_pid, code, reason)
    }

    /// The message that completes the transfer.
    pub fn complete(provider_pid: String, consumer_pid: String) -> (r: TransferCompletion)
        ensures
            r@ == (TransferCompletionModel {
                context: default_context_json(),
                ld_type: "TransferCompletionMessage"@,
                provider_pid: provider_pid@,
                consumer_pid: consumer_pid@,
            }),
    {
        TransferCompletion::new(provider_pid, consumer_pid)
    }
}

/// An error answer of the transfer protocol.
#[derive(Debug, PartialEq)]
pub struct TransferError {
    pub inner: AbstractTransferCode,
}

/// The error message with HTTP status `status` and reason `reason`.
pub open spec fn transfer_error_model(
    provider_pid: Seq<char>,
    consumer_pid: Seq<char>,
    status: nat,
    reason: Seq<char>,
) -> AbstractTransferCodeModel {
    AbstractTransferCodeModel {
        context: default_context_json(),
        ld_type: "TransferError"@,
        provider_pid,
        consumer_pid,
        code: Some(decimal(status)),
        reason: Some(seq![reason]),
    }
}

impl TransferError {
    /// The error with HTTP status `status` and reason `reason`.
    pub fn new(provider_pid: String, consumer_pid: String, status: u16, reason: &str) -> (r: TransferError)
        ensures
            r.inner@ == transfer_error_model(provider_pid@, consumer_pid@, status as nat, reason@),
    {
        let mut reasons: Vec<String> = Vec::new();
        reasons.push(crate::text::owned(reason));
        proof {
            assert(strs_view(reasons@) =~= seq![reason@]);
        }
        TransferError {
            inner: AbstractTransferCode::new(
                "TransferError",
                provider_pid,
                consumer_pid,
                Some(decimal_string(status)),
                Some(reasons),
            ),
        }
    }

    /// No agreement matches the request (400).
    pub fn agreement_not_found(provider_pid: String, consumer_pid: String) -> (r: TransferError)
        ensures
            r.inner@ == transfer_error_model(provider_pid@, consumer_pid@, 400, "No matching agreement"@),
    {
        TransferError::new(provider_pid, consumer_pid, 400, "No matching agreement")
    }

    /// The policy forbids the transfer (403).
    pub fn forbidden(provider_pid: String, consumer_pid: String) -> (r: TransferError)
        ensures
            r.inner@ == transfer_error_model(provider_pid@, consumer_pid@, 403, "Access denied"@),
    {
        TransferError::new(provider_pid, consumer_pid, 403, "Access denied")
    }

    /// No transfer process has these identifiers (404).
    pub fn transfer_not_found(provider_pid: String, consumer_pid: String) -> (r: TransferError)
        ensures
            r.inner@ == transfer_error_model(provider_pid@, consumer_pid@, 404, "Transfer not found"@),
    {
        TransferError::new(provider_pid, consumer_pid, 404, "Transfer not found")
    }

    /// The transfer process is not in a state that allows the request (400).
    pub fn invalid_state(provider_pid: String, consumer_pid: String) -> (r: TransferError)
        ensures
            r.inner@ == transfer_error_model(provider_pid@, consumer_pid@, 400, "Invalid state"@),
    {
        TransferError::new(provider_pid, consumer_pid, 400, "Invalid state")
    }

    /// The JSON form of this error: that of the message it carries.
    pub fn to_json(&self) -> (r: Json)
        ensures
            r@ == abstract_transfer_code_json(self.inner@),
    {
        self.inner.to_json()
    }
}

// ---------------------------------------------------------------------------
// The identifiers a message names: the provider's, then the consumer's
// ---------------------------------------------------------------------------

impl From<TransferStart> for (String, String) {
    fn from(value: TransferStart) -> (r: (String, String)) {
        (value.provider_pid, value.consumer_pid)
    }
}

impl vstd::std_specs::convert::FromSpecImpl<TransferStart> for (String, String) {
    open spec fn obeys_from_spec() -> bool {
        true
    }

    open spec fn from_spec(v: TransferStart) -> (String, String) {
        (v.provider_pid, v.consumer_pid)
    }
}

impl From<AbstractTransferCode> for (String, String) {
    fn from(value: AbstractTransferCode) -> (r: (String, String)) {
        (value.provider_pid, value.consumer_pid)
    }
}

impl vstd::std_specs::convert::FromSpecImpl<AbstractTransferCode> for (String, String) {
    open spec fn obeys_from_spec() -> bool {
        true
    }

    open spec fn from_spec(v: AbstractTransferCode) -> (String, String) {
        (v.provider_pid, v.consumer_pid)
    }
}

impl From<TransferCompletion> for (String, String) {
    fn from(value: TransferCompletion) -> (r: (String, String)) {
        (value.provider_pid, value.consumer_pid)
    }
}

impl vstd::std_specs::convert::FromSpecImpl<TransferCompletion> for (String, String) {
    open spec fn obeys_from_spec() -> bool {
        true
    }

    open spec fn from_spec(v: TransferCompletion) -> (String, String) {
        (v.provider_pid, v.consumer_pid)
    }
}

} // verus!
