//! The messages of the contract negotiation protocol and their JSON forms.
use vstd::prelude::*;
use crate::json::{
    Json, JsonError, JsonModel, members_model, req_str, opt_str, opt_strs, opt_member, opt_str_json,
    opt_strs_json, get_str, get_opt_str, get_opt_strs, push_member, push_opt_member, string_json, opt_string_json,
    opt_strings_json, lemma_str_list_roundtrip,
};
use crate::text::{opt_str_view, opt_strs_view, strs_view, str_eq, decimal, decimal_string};
use crate::policy::{Policy, PolicyModel};
use crate::model::common::{
    Resource,
    JsonLDContext, JsonLDType, context_json, is_context_json, header_json, header_from, header_members, read_header,
    lemma_member_names, default_context_json,
};

verus! {

/// What an event message announces.
#[derive(Debug, Clone, Copy, PartialEq, Eq, Structural)]
pub enum ContractNegotiationEventType {
    Accepted,
    Finalized,
}

/// The word that names an event in JSON.
pub open spec fn event_type_word(e: ContractNegotiationEventType) -> Seq<char> {
    match e {
        ContractNegotiationEventType::Accepted => "ACCEPTED"@,
        ContractNegotiationEventType::Finalized => "FINALIZED"@,
    }
}

/// The event that a word names, if it names one.
pub open spec fn event_type_from(s: Seq<char>) -> Option<ContractNegotiationEventType> {
    if s == "ACCEPTED"@ {
        Some(ContractNegotiationEventType::Accepted)
    } else if s == "FINALIZED"@ {
        Some(ContractNegotiationEventType::Finalized)
    } else {
        None
    }
}

/// A required member naming an event.
pub open spec fn req_event_type(ms: Seq<(Seq<char>, JsonModel)>, key: Seq<char>) -> Option<ContractNegotiationEventType> {
    match req_str(ms, key) {
        Some(s) => event_type_from(s),
        None => None,
    }
}

impl ContractNegotiationEventType {
    /// The word that names this event in JSON.
    pub fn word(&self) -> (r: &'static str)
        ensures
            r@ == event_type_word(*self),
    {
        match self {
            ContractNegotiationEventType::Accepted => "ACCEPTED",
            ContractNegotiationEventType::Finalized => "FINALIZED",
        }
    }
}

/// Reads a required member naming an event.
fn get_event_type(ms: &Vec<(String, Json)>, key: &str) -> (r: Result<ContractNegotiationEventType, JsonError>)
    ensures
        match r {
            Ok(e) => req_event_type(members_model(ms@, ms@.len()), key@) == Some(e),
            Err(_) => req_event_type(members_model(ms@, ms@.len()), key@) is None,
        },
{
    let s = get_str(ms, key)?;
    if str_eq(s.as_str(), "ACCEPTED") {
        Ok(ContractNegotiationEventType::Accepted)
    } else if str_eq(s.as_str(), "FINALIZED") {
        Ok(ContractNegotiationEventType::Finalized)
    } else {
        Err(JsonError)
    }
}

/// Reading back the word of an event gives the event.
pub proof fn event_type_roundtrip(e: ContractNegotiationEventType)
    ensures
        event_type_from(event_type_word(e)) == Some(e),
{
    lemma_member_names();
}

/// The state of a contract negotiation, as one party reports it.
#[derive(Debug, PartialEq)]
pub struct ContractNegotiation {
    pub context: JsonLDContext,
    pub ld_type: JsonLDType,
    pub provider_pid: String,
    pub consumer_pid: String,
    pub state: String,
}

/// What a `ContractNegotiation` says.
pub struct ContractNegotiationModel {
    pub context: JsonModel,
    pub ld_type: Seq<char>,
    pub provider_pid: Seq<char>,
    pub consumer_pid: Seq<char>,
    pub state: Seq<char>,
}

impl View for ContractNegotiation {
    type V = ContractNegotiationModel;

    open spec fn view(&self) -> ContractNegotiationModel {
        ContractNegotiationModel {
            context: context_json(self.context.context),
            ld_type: self.ld_type.name@,
            provider_pid: self.provider_pid@,
            consumer_pid: self.consumer_pid@,
            state: self.state@,
        }
    }
}

/// The members of the JSON form of a `ContractNegotiation`.
pub open spec fn contract_negotiation_members(m: ContractNegotiationModel) -> Seq<(Seq<char>, JsonModel)> {
    header_json(m.context, m.ld_type).push(("providerPid"@, JsonModel::String(m.provider_pid))).push(("consumerPid"@, JsonModel::String(m.consumer_pid))).push(("state"@, JsonModel::String(m.state)))
}

/// The JSON form of a `ContractNegotiation`.
pub open spec fn contract_negotiation_json(m: ContractNegotiationModel) -> JsonModel {
    JsonModel::Object(contract_negotiation_members(m))
}

/// The `ContractNegotiation` that a JSON value holds, if it holds one.
pub open spec fn contract_negotiation_from(j: JsonModel) -> Option<ContractNegotiationModel> {
    match j {
        JsonModel::Object(ms) => match (
            header_from(ms),
            req_str(ms, "providerPid"@),
            req_str(ms, "consumerPid"@),
            req_str(ms, "state"@),
        ) {
            (Some(h), Some(x0), Some(x1), Some(x2)) => Some(ContractNegotiationModel {
                context: h.0,
                ld_type: h.1,
                provider_pid: x0,
                consumer_pid: x1,
                state: x2,
            }),
            _ => None,
        },
        _ => None,
    }
}

impl ContractNegotiation {
    /// The JSON form of this message.
    pub fn to_json(&self) -> (r: Json)
        ensures
            r@ == contract_negotiation_json(self@),
    {
        let mut ms = header_members(&self.context, &self.ld_type);
        push_member(&mut ms, "providerPid", string_json(self.provider_pid.as_str()));
        push_member(&mut ms, "consumerPid", string_json(self.consumer_pid.as_str()));
        push_member(&mut ms, "state", string_json(self.state.as_str()));
        Json::Object(ms)
    }

    /// Reads a `ContractNegotiation` from JSON.
    pub fn from_json(j: &Json) -> (r: Result<ContractNegotiation, JsonError>)
        ensures
            match r {
                Ok(m) => contract_negotiation_from(j@) == Some(m@),
                Err(_) => contract_negotiation_from(j@) is None,
            },
    {
        match j {
            Json::Object(ms) => {
                let (context, ld_type) = read_header(ms)?;
                let provider_pid = get_str(ms, "providerPid")?;
                let consumer_pid = get_str(ms, "consumerPid")?;
                let state = get_str(ms, "state")?;
                Ok(ContractNegotiation { context, ld_type, provider_pid, consumer_pid, state })
            },
            _ => Err(JsonError),
        }
    }
}

/// Reading back the JSON form of a `ContractNegotiation` gives the same message.
pub proof fn contract_negotiation_roundtrip(m: ContractNegotiationModel)
    requires
        is_context_json(m.context),
    ensures
        contract_negotiation_from(contract_negotiation_json(m)) == Some(m),
{
    lemma_member_names();
    reveal_with_fuel(crate::json::member_from, 6);
}

/// The notice that one party accepted or finalized a negotiation.
#[derive(Debug, PartialEq)]
pub struct ContractNegotiationEvent {
    pub context: JsonLDContext,
    pub ld_type: JsonLDType,
    pub provider_pid: String,
    pub consumer_pid: String,
    pub event_type: ContractNegotiationEventType,
}

/// What a `ContractNegotiationEvent` says.
pub struct ContractNegotiationEventModel {
    pub context: JsonModel,
    pub ld_type: Seq<char>,
    pub provider_pid: Seq<char>,
    pub consumer_pid: Seq<char>,
    pub event_type: ContractNegotiationEventType,
}

impl View for ContractNegotiationEvent {
    type V = ContractNegotiationEventModel;

    open spec fn view(&self) -> ContractNegotiationEventModel {
        ContractNegotiationEventModel {
            context: context_json(self.context.context),
            ld_type: self.ld_type.name@,
            provider_pid: self.provider_pid@,
            consumer_pid: self.consumer_pid@,
            event_type: self.event_type,
        }
    }
}

/// The members of the JSON form of a `ContractNegotiationEvent`.
pub open spec fn contract_negotiation_event_members(m: ContractNegotiationEventModel) -> Seq<(Seq<char>, JsonModel)> {
    header_json(m.context, m.ld_type).push(("providerPid"@, JsonModel::String(m.provider_pid))).push(("consumerPid"@, JsonModel::String(m.consumer_pid))).push(("eventType"@, JsonModel::String(event_type_word(m.event_type))))
}

/// The JSON form of a `ContractNegotiationEvent`.
pub open spec fn contract_negotiation_event_json(m: ContractNegotiationEventModel) -> JsonModel {
    JsonModel::Object(contract_negotiation_event_members(m))
}

/// The `ContractNegotiationEvent` that a JSON value holds, if it holds one.
pub open spec fn contract_negotiation_event_from(j: JsonModel) -> Option<ContractNegotiationEventModel> {
    match j {
        JsonModel::Object(ms) => match (
            header_from(ms),
            req_str(ms, "providerPid"@),
            req_str(ms, "consumerPid"@),
            req_event_type(ms, "eventType"@),
        ) {
            (Some(h), Some(x0), Some(x1), Some(x2)) => Some(ContractNegotiationEventModel {
                context: h.0,
                ld_type: h.1,
                provider_pid: x0,
                consumer_pid: x1,
                event_type: x2,
            }),
            _ => None,
        },
        _ => None,
    }
}

impl ContractNegotiationEvent {
    /// The JSON form of this message.
    pub fn to_json(&self) -> (r: Json)
        ensures
            r@ == contract_negotiation_event_json(self@),
    {
        let mut ms = header_members(&self.context, &self.ld_type);
        push_member(&mut ms, "providerPid", string_json(self.provider_pid.as_str()));
        push_member(&mut ms, "consumerPid", string_json(self.consumer_pid.as_str()));
        push_member(&mut ms, "eventType", string_json(self.event_type.word()));
        Json::Object(ms)
    }

    /// Reads a `ContractNegotiationEvent` from JSON.
    pub fn from_json(j: &Json) -> (r: Result<ContractNegotiationEvent, JsonError>)
        ensures
            match r {
                Ok(m) => contract_negotiation_event_from(j@) == Some(m@),
                Err(_) => contract_negotiation_event_from(j@) is None,
            },
    {
        match j {
            Json::Object(ms) => {
                let (context, ld_type) = read_header(ms)?;
                let provider_pid = get_str(ms, "providerPid")?;
                let consumer_pid = get_str(ms, "consumerPid")?;
                let event_type = get_event_type(ms, "eventType")?;
                Ok(ContractNegotiationEvent { context, ld_type, provider_pid, consumer_pid, event_type })
            },
            _ => Err(JsonError),
        }
    }
}

/// Reading back the JSON form of a `ContractNegotiationEvent` gives the same message.
pub proof fn contract_negotiation_event_roundtrip(m: ContractNegotiationEventModel)
    requires
        is_context_json(m.context),
    ensures
        contract_negotiation_event_from(contract_negotiation_event_json(m)) == Some(m),
{
    lemma_member_names();
    event_type_roundtrip(m.event_type);
    reveal_with_fuel(crate::json::member_from, 6);
}

/// The notice that one party ends a negotiation, with an optional code and reason.
#[derive(Debug, PartialEq)]
pub struct ContractNegotiationTermination {
    pub context: JsonLDContext,
    pub ld_type: JsonLDType,
    pub provider_pid: String,
    pub consumer_pid: String,
    pub code: Option<String>,
    pub reason: Option<Vec<String>>,
}

/// What a `ContractNegotiationTermination` says.
pub struct ContractNegotiationTerminationModel {
    pub context: JsonModel,
    pub ld_type: Seq<char>,
    pub provider_pid: Seq<char>,
    pub consumer_pid: Seq<char>,
    pub code: Option<Seq<char>>,
    pub reason: Option<Seq<Seq<char>>>,
}

impl View for ContractNegotiationTermination {
    type V = ContractNegotiationTerminationModel;

    open spec fn view(&self) -> ContractNegotiationTerminationModel {
        ContractNegotiationTerminationModel {
            context: context_json(self.context.context),
            ld_type: self.ld_type.name@,
            provider_pid: self.provider_pid@,
            consumer_pid: self.consumer_pid@,
            code: opt_str_view(self.code),
            reason: opt_strs_view(self.reason),
        }
    }
}

/// The members of the JSON form of a `ContractNegotiationTermination`.
pub open spec fn contract_negotiation_termination_members(m: ContractNegotiationTerminationModel) -> Seq<(Seq<char>, JsonModel)> {
    opt_member(opt_member(header_json(m.context, m.ld_type).push(("providerPid"@, JsonModel::String(m.provider_pid))).push(("consumerPid"@, JsonModel::String(m.consumer_pid))), "code"@, opt_str_json(m.code)), "reason"@, opt_strs_json(m.reason))
}

/// The JSON form of a `ContractNegotiationTermination`.
pub open spec fn contract_negotiation_termination_json(m: ContractNegotiationTerminationModel) -> JsonModel {
    JsonModel::Object(contract_negotiation_termination_members(m))
}

/// The `ContractNegotiationTermination` that a JSON value holds, if it holds one.
pub open spec fn contract_negotiation_termination_from(j: JsonModel) -> Option<ContractNegotiationTerminationModel> {
    match j {
        JsonModel::Object(ms) => match (
            header_from(ms),
            req_str(ms, "providerPid"@),
            req_str(ms, "consumerPid"@),
            opt_str(ms, "code"@),
            opt_strs(ms, "reason"@),
        ) {
            (Some(h), Some(x0), Some(x1), Some(x2), Some(x3)) => Some(ContractNegotiationTerminationModel {
                context: h.0,
                ld_type: h.1,
                provider_pid: x0,
                consumer_pid: x1,
                code: x2,
                reason: x3,
            }),
            _ => None,
        },
        _ => None,
    }
}

impl ContractNegotiationTermination {
    /// The JSON form of this message.
    pub fn to_json(&self) -> (r: Json)
        ensures
            r@ == contract_negotiation_termination_json(self@),
    {
        let mut ms = header_members(&self.context, &self.ld_type);
        push_member(&mut ms, "providerPid", string_json(self.provider_pid.as_str()));
        push_member(&mut ms, "consumerPid", string_json(self.consumer_pid.as_str()));
        push_opt_member(&mut ms, "code", opt_string_json(&self.code));
        push_opt_member(&mut ms, "reason", opt_strings_json(&self.reason));
        Json::Object(ms)
    }

    /// Reads a `ContractNegotiationTermination` from JSON.
    pub fn from_json(j: &Json) -> (r: Result<ContractNegotiationTermination, JsonError>)
        ensures
            match r {
                Ok(m) => contract_negotiation_termination_from(j@) == Some(m@),
                Err(_) => contract_negotiation_termination_from(j@) is None,
            },
    {
        match j {
            Json::Object(ms) => {
                let (context, ld_type) = read_header(ms)?;
                let provider_pid = get_str(ms, "providerPid")?;
                let consumer_pid = get_str(ms, "consumerPid")?;
                let code = get_opt_str(ms, "code")?;
                let reason = get_opt_strs(ms, "reason")?;
                Ok(ContractNegotiationTermination { context, ld_type, provider_pid, consumer_pid, code, reason })
            },
            _ => Err(JsonError),
        }
    }
}

/// Reading back the JSON form of a `ContractNegotiationTermination` gives the same message.
pub proof fn contract_negotiation_termination_roundtrip(m: ContractNegotiationTerminationModel)
    requires
        is_context_json(m.context),
    ensures
        contract_negotiation_termination_from(contract_negotiation_termination_json(m)) == Some(m),
{
    lemma_member_names();
    match m.reason {
        Some(ss) => lemma_str_list_roundtrip(ss),
        None => {},
    }
    reveal_with_fuel(crate::json::member_from, 7);
}

/// An error answer of the negotiation protocol, with an optional code and reason.
#[derive(Debug, PartialEq)]
pub struct ContractNegotiationError {
    pub context: JsonLDContext,
    pub ld_type: JsonLDType,
    pub provider_pid: String,
    pub consumer_pid: String,
    pub code: Option<String>,
    pub reason: Option<Vec<String>>,
}

/// What a `ContractNegotiationError` says.
pub struct ContractNegotiationErrorModel {
    pub context: JsonModel,
    pub ld_type: Seq<char>,
    pub provider_pid: Seq<char>,
    pub consumer_pid: Seq<char>,
    pub code: Option<Seq<char>>,
    pub reason: Option<Seq<Seq<char>>>,
}

impl View for ContractNegotiationError {
    type V = ContractNegotiationErrorModel;

    open spec fn view(&self) -> ContractNegotiationErrorModel {
        ContractNegotiationErrorModel {
            context: context_json(self.context.context),
            ld_type: self.ld_type.name@,
            provider_pid: self.provider_pid@,
            consumer_pid: self.consumer_pid@,
            code: opt_str_view(self.code),
            reason: opt_strs_view(self.reason),
        }
    }
}

/// The members of the JSON form of a `ContractNegotiationError`.
pub open spec fn contract_negotiation_error_members(m: ContractNegotiationErrorModel) -> Seq<(Seq<char>, JsonModel)> {
    opt_member(opt_member(header_json(m.context, m.ld_type).push(("providerPid"@, JsonModel::String(m.provider_pid))).push(("consumerPid"@, JsonModel::String(m.consumer_pid))), "code"@, opt_str_json(m.code)), "reason"@, opt_strs_json(m.reason))
}

/// The JSON form of a `ContractNegotiationError`.
pub open spec fn contract_negotiation_error_json(m: ContractNegotiationErrorModel) -> JsonModel {
    JsonModel::Object(contract_negotiation_error_members(m))
}

/// The `ContractNegotiationError` that a JSON value holds, if it holds one.
pub open spec fn contract_negotiation_error_from(j: JsonModel) -> Option<ContractNegotiationErrorModel> {
    match j {
        JsonModel::Object(ms) => match (
            header_from(ms),
            req_str(ms, "providerPid"@),
            req_str(ms, "consumerPid"@),
            opt_str(ms, "code"@),
            opt_strs(ms, "reason"@),
        ) {
            (Some(h), Some(x0), Some(x1), Some(x2), Some(x3)) => Some(ContractNegotiationErrorModel {
                context: h.0,
                ld_type: h.1,
                provider_pid: x0,
                consumer_pid: x1,
                code: x2,
                reason: x3,
            }),
            _ => None,
        },
        _ => None,
    }
}

impl ContractNegotiationError {
    /// The JSON form of this message.
    pub fn to_json(&self) -> (r: Json)
        ensures
            r@ == contract_negotiation_error_json(self@),
    {
        let mut ms = header_members(&self.context, &self.ld_type);
        push_member(&mut ms, "providerPid", string_json(self.provider_pid.as_str()));
        push_member(&mut ms, "consumerPid", string_json(self.consumer_pid.as_str()));
        push_opt_member(&mut ms, "code", opt_string_json(&self.code));
        push_opt_member(&mut ms, "reason", opt_strings_json(&self.reason));
        Json::Object(ms)
    }

    /// Reads a `ContractNegotiationError` from JSON.
    pub fn from_json(j: &Json) -> (r: Result<ContractNegotiationError, JsonError>)
        ensures
            match r {
                Ok(m) => contract_negotiation_error_from(j@) == Some(m@),
                Err(_) => contract_negotiation_error_from(j@) is None,
            },
    {
        match j {
            Json::Object(ms) => {
                let (context, ld_type) = read_header(ms)?;
                let provider_pid = get_str(ms, "providerPid")?;
                let consumer_pid = get_str(ms, "consumerPid")?;
                let code = get_opt_str(ms, "code")?;
                let reason = get_opt_strs(ms, "reason")?;
                Ok(ContractNegotiationError { context, ld_type, provider_pid, consumer_pid, code, reason })
            },
            _ => Err(JsonError),
        }
    }
}

/// Reading back the JSON form of a `ContractNegotiationError` gives the same message.
pub proof fn contract_negotiation_error_roundtrip(m: ContractNegotiationErrorModel)
    requires
        is_context_json(m.context),
    ensures
        contract_negotiation_error_from(contract_negotiation_error_json(m)) == Some(m),
{
    lemma_member_names();
    match m.reason {
        Some(ss) => lemma_str_list_roundtrip(ss),
        None => {},
    }
    reveal_with_fuel(crate::json::member_from, 7);
}

/// The consumer's confirmation that it verified an agreement.
#[derive(Debug, PartialEq)]
pub struct ContractAgreementVerification {
    pub context: JsonLDContext,
    pub ld_type: JsonLDType,
    pub provider_pid: String,
    pub consumer_pid: String,
}

/// What a `ContractAgreementVerification` says.
pub struct ContractAgreementVerificationModel {
    pub context: JsonModel,
    pub ld_type: Seq<char>,
    pub provider_pid: Seq<char>,
    pub consumer_pid: Seq<char>,
}

impl View for ContractAgreementVerification {
    type V = ContractAgreementVerificationModel;

    open spec fn view(&self) -> ContractAgreementVerificationModel {
        ContractAgreementVerificationModel {
            context: context_json(self.context.context),
            ld_type: self.ld_type.name@,
            provider_pid: self.provider_pid@,
            consumer_pid: self.consumer_pid@,
        }
    }
}

/// The members of the JSON form of a `ContractAgreementVerification`.
pub open spec fn contract_agreement_verification_members(m: ContractAgreementVerificationModel) -> Seq<(Seq<char>, JsonModel)> {
    header_json(m.context, m.ld_type).push(("providerPid"@, JsonModel::String(m.provider_pid))).push(("consumerPid"@, JsonModel::String(m.consumer_pid)))
}

/// The JSON form of a `ContractAgreementVerification`.
pub open spec fn contract_agreement_verification_json(m: ContractAgreementVerificationModel) -> JsonModel {
    JsonModel::Object(contract_agreement_verification_members(m))
}

/// The `ContractAgreementVerification` that a JSON value holds, if it holds one.
pub open spec fn contract_agreement_verification_from(j: JsonModel) -> Option<ContractAgreementVerificationModel> {
    match j {
        JsonModel::Object(ms) => match (
            header_from(ms),
            req_str(ms, "providerPid"@),
            req_str(ms, "consumerPid"@),
        ) {
            (Some(h), Some(x0), Some(x1)) => Some(ContractAgreementVerificationModel {
                context: h.0,
                ld_type: h.1,
                provider_pid: x0,
                consumer_pid: x1,
            }),
            _ => None,
        },
        _ => None,
    }
}

impl ContractAgreementVerification {
    /// The JSON form of this message.
    pub fn to_json(&self) -> (r: Json)
        ensures
            r@ == contract_agreement_verification_json(self@),
    {
        let mut ms = header_members(&self.context, &self.ld_type);
        push_member(&mut ms, "providerPid", string_json(self.provider_pid.as_str()));
        push_member(&mut ms, "consumerPid", string_json(self.consumer_pid.as_str()));
        Json::Object(ms)
    }

    /// Reads a `ContractAgreementVerification` from JSON.
    pub fn from_json(j: &Json) -> (r: Result<ContractAgreementVerification, JsonError>)
        ensures
            match r {
                Ok(m) => contract_agreement_verification_from(j@) == Some(m@),
                Err(_) => contract_agreement_verification_from(j@) is None,
            },
    {
        match j {
            Json::Object(ms) => {
                let (context, ld_type) = read_header(ms)?;
                let provider_pid = get_str(ms, "providerPid")?;
                let consumer_pid = get_str(ms, "consumerPid")?;
                Ok(ContractAgreementVerification { context, ld_type, provider_pid, consumer_pid })
            },
            _ => Err(JsonError),
        }
    }
}

/// Reading back the JSON form of a `ContractAgreementVerification` gives the same message.
pub proof fn contract_agreement_verification_roundtrip(m: ContractAgreementVerificationModel)
    requires
        is_context_json(m.context),
    ensures
        contract_agreement_verification_from(contract_agreement_verification_json(m)) == Some(m),
{
    lemma_member_names();
    reveal_with_fuel(crate::json::member_from, 5);
}

// ---------------------------------------------------------------------------
// Building messages
// ---------------------------------------------------------------------------

impl ContractNegotiation {
    /// The event by which the consumer accepts the provider's offer.
    pub fn accept(provider_pid: String, consumer_pid: String) -> (r: ContractNegotiationEvent)
        ensures
            r@ == (ContractNegotiationEventModel {
                context: default_context_json(),
                ld_type: "ContractNegotiationEventMessage"@,
                provider_pid: provider_pid@,
                consumer_pid: consumer_pid@,
                event_type: ContractNegotiationEventType::Accepted,
            }),
    {
        ContractNegotiationEvent {
            context: JsonLDContext::default(),
            ld_type: JsonLDType::named("ContractNegotiationEventMessage"),
            provider_pid,
            consumer_pid,
            event_type: ContractNegotiationEventType::Accepted,
        }
    }

    /// The consumer's confirmation that it verified the agreement.
    pub fn verify(provider_pid: String, consumer_pid: String) -> (r: ContractAgreementVerification)
        ensures
            r@ == (ContractAgreementVerificationModel {
                context: default_context_json(),
                ld_type: "ContractAgreementVerificationMessage"@,
                provider_pid: provider_pid@,
                consumer_pid: consumer_pid@,
            }),
    {
        ContractAgreementVerification {
            context: JsonLDContext::default(),
            ld_type: JsonLDType::named("ContractAgreementVerificationMessage"),
            provider_pid,
            consumer_pid,
        }
    }

    /// The event by which the provider finalizes the negotiation.
    pub fn finalize(provider_pid: String, consumer_pid: String) -> (r: ContractNegotiationEvent)
        ensures
            r@ == (ContractNegotiationEventModel {
                context: default_context_json(),
                ld_type: "ContractNegotiationEventMessage"@,
                provider_pid: provider_pid@,
                consumer_pid: consumer_pid@,
                event_type: ContractNegotiationEventType::Finalized,
            }),
    {
        ContractNegotiationEvent {
            context: JsonLDContext::default(),
            ld_type: JsonLDType::named("ContractNegotiationEventMessage"),
            provider_pid,
            consumer_pid,
            event_type: ContractNegotiationEventType::Finalized,
        }
    }

    /// The message that ends the negotiation.
    pub fn terminate(
        provider_pid: String,
        consumer_pid: String,
        code: Option<String>,
        reason: Option<Vec<String>>,
    ) -> (r: ContractNegotiationTermination)
        ensures
            r@ == (ContractNegotiationTerminationModel {
                context: default_context_json(),
                ld_type: "ContractNegotiationTerminationMessage"@,
                provider_pid: provider_pid@,
                consumer_pid: consumer_pid@,
                code: opt_str_view(code),
                reason: opt_strs_view(reason),
            }),
    {
        ContractNegotiationTermination {
            context: JsonLDContext::default(),
            ld_type: JsonLDType::named("ContractNegotiationTerminationMessage"),
            provider_pid,
            consumer_pid,
            code,
            reason,
        }
    }
}

/// The negotiation error with HTTP status `status` and reason `reason`.
pub open spec fn negotiation_error_model(
    provider_pid: Seq<char>,
    consumer_pid: Seq<char>,
    status: nat,
    reason: Seq<char>,
) -> ContractNegotiationErrorModel {
    ContractNegotiationErrorModel {
        context: default_context_json(),
        ld_type: "ContractNegotiationError"@,
        provider_pid,
        consumer_pid,
        code: Some(decimal(status)),
        reason: Some(seq![reason]),
    }
}

impl ContractNegotiationError {
    /// The error with HTTP status `status` and reason `reason`.
    pub fn new(provider_pid: String, consumer_pid: String, status: u16, reason: &str) -> (r: ContractNegotiationError)
        ensures
            r@ == negotiation_error_model(provider_pid@, consumer_pid@, status as nat, reason@),
    {
        let mut reasons: Vec<String> = Vec::new();
        reasons.push(crate::text::owned(reason));
        proof {
            assert(strs_view(reasons@) =~= seq![reason@]);
        }
        ContractNegotiationError {
            context: JsonLDContext::default(),
            ld_type: JsonLDType::named("ContractNegotiationError"),
            provider_pid,
            consumer_pid,
            code: Some(decimal_string(status)),
            reason: Some(reasons),
        }
    }

    /// No negotiation has these identifiers (404).
    pub fn contract_not_found(provider_pid: String, consumer_pid: String) -> (r: ContractNegotiationError)
        ensures
            r@ == negotiation_error_model(provider_pid@, consumer_pid@, 404, "Contract not found"@),
    {
        ContractNegotiationError::new(provider_pid, consumer_pid, 404, "Contract not found")
    }

    /// The negotiation is not in a state that allows the request (400).
    pub fn invalid_state(provider_pid: String, consumer_pid: String) -> (r: ContractNegotiationError)
        ensures
            r@ == negotiation_error_model(provider_pid@, consumer_pid@, 400, "Invalid state"@),
    {
        ContractNegotiationError::new(provider_pid, consumer_pid, 400, "Invalid state")
    }
}

// ---------------------------------------------------------------------------
// The identifiers a message names: the provider's, then the consumer's
// ---------------------------------------------------------------------------

impl From<ContractNegotiationEvent> for (String, String) {
    fn from(value: ContractNegotiationEvent) -> (r: (String, String)) {
        (value.provider_pid, value.consumer_pid)
    }
}

impl vstd::std_specs::convert::FromSpecImpl<ContractNegotiationEvent> for (String, String) {
    open spec fn obeys_from_spec() -> bool {
        true
    }

    open spec fn from_spec(v: ContractNegotiationEvent) -> (String, String) {
        (v.provider_pid, v.consumer_pid)
    }
}

impl From<ContractNegotiationTermination> for (String, String) {
    fn from(value: ContractNegotiationTermination) -> (r: (String, String)) {
        (value.provider_pid, value.consumer_pid)
    }
}

impl vstd::std_specs::convert::FromSpecImpl<ContractNegotiationTermination> for (String, String) {
    open spec fn obeys_from_spec() -> bool {
        true
    }

    open spec fn from_spec(v: ContractNegotiationTermination) -> (String, String) {
        (v.provider_pid, v.consumer_pid)
    }
}

impl From<ContractAgreementVerification> for (String, String) {
    fn from(value: ContractAgreementVerification) -> (r: (String, String)) {
        (value.provider_pid, value.consumer_pid)
    }
}

impl vstd::std_specs::convert::FromSpecImpl<ContractAgreementVerification> for (String, String) {
    open spec fn obeys_from_spec() -> bool {
        true
    }

    open spec fn from_spec(v: ContractAgreementVerification) -> (String, String) {
        (v.provider_pid, v.consumer_pid)
    }
}

// ---------------------------------------------------------------------------
// Offers, requests and agreements
// ---------------------------------------------------------------------------

/// An offer as a message carries it: its identifier, the dataset it is about, and the
/// policy offered.
#[derive(Debug, PartialEq)]
pub struct MessageOffer {
    pub id: String,
    pub target: Option<String>,
    pub policy: Policy,
}

/// What an offer says.
pub struct MessageOfferModel {
    pub id: Seq<char>,
    pub target: Option<Seq<char>>,
    pub policy: PolicyModel,
}

impl View for MessageOffer {
    type V = MessageOfferModel;

    open spec fn view(&self) -> MessageOfferModel {
        MessageOfferModel { id: self.id@, target: opt_str_view(self.target), policy: self.policy@ }
    }
}

/// An agreement: its identifier, the dataset it is about, the parties, and the agreed policy.
#[derive(Debug, PartialEq)]
pub struct Agreement {
    pub id: String,
    pub target: String,
    pub assigner: String,
    pub assignee: String,
    pub policy: Policy,
}

/// What an agreement says.
pub struct AgreementModel {
    pub id: Seq<char>,
    pub target: Seq<char>,
    pub assigner: Seq<char>,
    pub assignee: Seq<char>,
    pub policy: PolicyModel,
}

impl View for Agreement {
    type V = AgreementModel;

    open spec fn view(&self) -> AgreementModel {
        AgreementModel {
            id: self.id@,
            target: self.target@,
            assigner: self.assigner@,
            assignee: self.assignee@,
            policy: self.policy@,
        }
    }
}

/// The offer that a contract request answers: one given in full, or one referred to by
/// its identifier.
#[derive(Debug, PartialEq)]
pub enum ContractRequestOffer {
    Concrete(MessageOffer),
    Reference(Resource),
}

/// What the offer of a contract request says.
pub enum ContractRequestOfferModel {
    Concrete(MessageOfferModel),
    Reference(Seq<char>),
}

impl View for ContractRequestOffer {
    type V = ContractRequestOfferModel;

    open spec fn view(&self) -> ContractRequestOfferModel {
        match self {
            ContractRequestOffer::Concrete(o) => ContractRequestOfferModel::Concrete(o@),
            ContractRequestOffer::Reference(r) => ContractRequestOfferModel::Reference(r.id@),
        }
    }
}

/// A consumer's request for a contract on an offer.
#[derive(Debug, PartialEq)]
pub struct ContractRequest {
    pub context: JsonLDContext,
    pub ld_type: JsonLDType,
    pub consumer_pid: String,
    pub offer: ContractRequestOffer,
    pub provider_pid: Option<String>,
    pub callback_address: Option<String>,
}

/// What a contract request says.
pub struct ContractRequestModel {
    pub context: JsonModel,
    pub ld_type: Seq<char>,
    pub consumer_pid: Seq<char>,
    pub offer: ContractRequestOfferModel,
    pub provider_pid: Option<Seq<char>>,
    pub callback_address: Option<Seq<char>>,
}

impl View for ContractRequest {
    type V = ContractRequestModel;

    open spec fn view(&self) -> ContractRequestModel {
        ContractRequestModel {
            context: context_json(self.context.context),
            ld_type: self.ld_type.name@,
            consumer_pid: self.consumer_pid@,
            offer: self.offer@,
            provider_pid: opt_str_view(self.provider_pid),
            callback_address: opt_str_view(self.callback_address),
        }
    }
}

impl ContractRequest {
    /// The request that opens a negotiation: no provider identifier yet, and the address
    /// at which the consumer takes answers.
    pub fn make_initial(consumer_pid: String, offer: ContractRequestOffer, callback_address: String) -> (r: ContractRequest)
        ensures
            r@ == (ContractRequestModel {
                context: default_context_json(),
                ld_type: "ContractRequestMessage"@,
                consumer_pid: consumer_pid@,
                offer: offer@,
                provider_pid: None,
                callback_address: Some(callback_address@),
            }),
    {
        ContractRequest {
            context: JsonLDContext::default(),
            ld_type: JsonLDType::named("ContractRequestMessage"),
            consumer_pid,
            offer,
            provider_pid: None,
            callback_address: Some(callback_address),
        }
    }

    /// A request within a running negotiation, which names the provider's identifier.
    pub fn make_secondary(consumer_pid: String, offer: ContractRequestOffer, provider_pid: String) -> (r: ContractRequest)
        ensures
            r@ == (ContractRequestModel {
                context: default_context_json(),
                ld_type: "ContractRequestMessage"@,
                consumer_pid: consumer_pid@,
                offer: offer@,
                provider_pid: Some(provider_pid@),
                callback_address: None,
            }),
    {
        ContractRequest {
            context: JsonLDContext::default(),
            ld_type: JsonLDType::named("ContractRequestMessage"),
            consumer_pid,
            offer,
            provider_pid: Some(provider_pid),
            callback_address: None,
        }
    }
}

/// A provider's offer of a contract.
#[derive(Debug, PartialEq)]
pub struct ContractOffer {
    pub context: JsonLDContext,
    pub ld_type: JsonLDType,
    pub provider_pid: String,
    pub offer: MessageOffer,
    pub callback_address: Option<String>,
    pub consumer_pid: Option<String>,
}

/// What a contract offer says.
pub struct ContractOfferModel {
    pub context: JsonModel,
    pub ld_type: Seq<char>,
    pub provider_pid: Seq<char>,
    pub offer: MessageOfferModel,
    pub callback_address: Option<Seq<char>>,
    pub consumer_pid: Option<Seq<char>>,
}

impl View for ContractOffer {
    type V = ContractOfferModel;

    open spec fn view(&self) -> ContractOfferModel {
        ContractOfferModel {
            context: context_json(self.context.context),
            ld_type: self.ld_type.name@,
            provider_pid: self.provider_pid@,
            offer: self.offer@,
            callback_address: opt_str_view(self.callback_address),
            consumer_pid: opt_str_view(self.consumer_pid),
        }
    }
}

impl ContractOffer {
    /// The offer that opens a negotiation from the provider's side: no consumer
    /// identifier yet, and the address at which the provider takes answers.
    pub fn _make_initial(provider_pid: String, offer: MessageOffer, callback_address: String) -> (r: ContractOffer)
        ensures
            r@ == (ContractOfferModel {
                context: default_context_json(),
                ld_type: "ContractOfferMessage"@,
                provider_pid: provider_pid@,
                offer: offer@,
                callback_address: Some(callback_address@),
                consumer_pid: None,
            }),
    {
        ContractOffer {
            context: JsonLDContext::default(),
            ld_type: JsonLDType::named("ContractOfferMessage"),
            provider_pid,
            offer,
            callback_address: Some(callback_address),
            consumer_pid: None,
        }
    }

    /// An offer within a running negotiation, which names the consumer's identifier.
    pub fn make_secondary(provider_pid: String, offer: MessageOffer, consumer_pid: String) -> (r: ContractOffer)
        ensures
            r@ == (ContractOfferModel {
                context: default_context_json(),
                ld_type: "ContractOfferMessage"@,
                provider_pid: provider_pid@,
                offer: offer@,
                callback_address: None,
                consumer_pid: Some(consumer_pid@),
            }),
    {
        ContractOffer {
            context: JsonLDContext::default(),
            ld_type: JsonLDType::named("ContractOfferMessage"),
            provider_pid,
            offer,
            callback_address: None,
            consumer_pid: Some(consumer_pid),
        }
    }
}

/// The provider's agreement message.
#[derive(Debug, PartialEq)]
pub struct ContractAgreement {
    pub context: JsonLDContext,
    pub ld_type: JsonLDType,
    pub provider_pid: String,
    pub consumer_pid: String,
    pub agreement: Agreement,
}

/// What an agreement message says.
pub struct ContractAgreementModel {
    pub context: JsonModel,
    pub ld_type: Seq<char>,
    pub provider_pid: Seq<char>,
    pub consumer_pid: Seq<char>,
    pub agreement: AgreementModel,
}

impl View for ContractAgreement {
    type V = ContractAgreementModel;

    open spec fn view(&self) -> ContractAgreementModel {
        ContractAgreementModel {
            context: context_json(self.context.context),
            ld_type: self.ld_type.name@,
            provider_pid: self.provider_pid@,
            consumer_pid: self.consumer_pid@,
            agreement: self.agreement@,
        }
    }
}

impl ContractNegotiation {
    /// The message by which the provider agrees to `agreement`.
    pub fn agree(provider_pid: String, consumer_pid: String, agreement: Agreement) -> (r: ContractAgreement)
        ensures
            r@ == (ContractAgreementModel {
                context: default_context_json(),
                ld_type: "ContractAgreementMessage"@,
                provider_pid: provider_pid@,
                consumer_pid: consumer_pid@,
                agreement: agreement@,
            }),
    {
        ContractAgreement {
            context: JsonLDContext::default(),
            ld_type: JsonLDType::named("ContractAgreementMessage"),
            provider_pid,
            consumer_pid,
            agreement,
        }
    }
}

impl ContractRequest {
    /// The identifiers that the request names: the provider's, empty where there is none
    /// yet, then the consumer's.
    pub fn pids(self) -> (r: (String, String))
        ensures
            r.0@ == match self.provider_pid {
                Some(p) => p@,
                None => Seq::<char>::empty(),
            },
            r.1@ == self.consumer_pid@,
    {
        let provider = match self.provider_pid {
            Some(p) => p,
            None => String::new(),
        };
        (provider, self.consumer_pid)
    }
}

impl ContractOffer {
    /// The identifiers that the offer names: the provider's, then the consumer's, empty
    /// where there is none yet.
    pub fn pids(self) -> (r: (String, String))
        ensures
            r.0@ == self.provider_pid@,
            r.1@ == match self.consumer_pid {
                Some(c) => c@,
                None => Seq::<char>::empty(),
            },
    {
        let consumer = match self.consumer_pid {
            Some(c) => c,
            None => String::new(),
        };
        (self.provider_pid, consumer)
    }
}

impl From<ContractAgreement> for (String, String) {
    fn from(value: ContractAgreement) -> (r: (String, String)) {
        (value.provider_pid, value.consumer_pid)
    }
}

impl vstd::std_specs::convert::FromSpecImpl<ContractAgreement> for (String, String) {
    open spec fn obeys_from_spec() -> bool {
        true
    }

    open spec fn from_spec(v: ContractAgreement) -> (String, String) {
        (v.provider_pid, v.consumer_pid)
    }
}

} // verus!
