//! The messages of the Nnssf_NSSAIAvailability service (3GPP TS 29.531).
use vstd::prelude::*;
use super::common::{PlmnId, Snssai, Tai};
use super::nsselection::TaiRange;

verus! {

#[derive(Debug, Clone, PartialEq)]
pub enum NssfEventType {
    SnssaiStatusChangeReport,
    SnssaiReplacementReport,
    NsiUnavailabilityReport,
    SnssaiValidityTimeReport,
}

#[derive(Debug, Clone)]
pub struct RestrictedSnssai {
    pub home_plmn_id: PlmnId,
    pub s_nssai_list: Vec<Snssai>,
    pub home_plmn_snssai_list: Option<Vec<Snssai>>,
}

#[derive(Debug, Clone)]
pub struct SupportedNssaiAvailabilityData {
    pub tai: Tai,
    pub supported_snssai_list: Vec<Snssai>,
    pub tai_list: Option<Vec<Tai>>,
    pub tai_range_list: Option<Vec<TaiRange>>,
}

#[derive(Debug, Clone)]
pub struct AuthorizedNssaiAvailabilityData {
    pub tai: Tai,
    pub supported_snssai_list: Vec<Snssai>,
    pub restricted_snssai_list: Option<Vec<RestrictedSnssai>>,
    pub tai_list: Option<Vec<Tai>>,
    pub tai_range_list: Option<Vec<TaiRange>>,
}

#[derive(Debug, Clone)]
pub struct NssaiAvailabilityInfo {
    pub supported_nssai_availability_data: Vec<SupportedNssaiAvailabilityData>,
    pub supported_features: Option<String>,
}

#[derive(Debug, Clone)]
pub struct AuthorizedNssaiAvailabilityInfo {
    pub authorized_nssai_availability_data: Option<Vec<AuthorizedNssaiAvailabilityData>>,
    pub supported_features: Option<String>,
}

#[derive(Debug, Clone)]
pub struct NssfEventSubscriptionCreateData {
    pub nf_nssai_availability_uri: String,
    pub tai_list: Option<Vec<Tai>>,
    pub event: NssfEventType,
    pub additional_events: Option<Vec<NssfEventType>>,
    pub expiry: Option<String>,
    pub amf_set_id: Option<String>,
    pub tai_range_list: Option<Vec<TaiRange>>,
    pub amf_id: Option<String>,
    pub supported_features: Option<String>,
    pub all_amf_set_tai_ind: Option<bool>,
}

#[derive(Debug, Clone)]
pub struct NssfEventSubscriptionCreatedData {
    pub subscription_id: String,
    pub expiry: Option<String>,
    pub authorized_nssai_availability_data: Option<Vec<AuthorizedNssaiAvailabilityData>>,
    pub supported_features: Option<String>,
}

#[derive(Debug, Clone)]
pub struct NssfEventNotification {
    pub subscription_id: String,
    pub authorized_nssai_availability_data: Option<Vec<AuthorizedNssaiAvailabilityData>>,
}

/// A JSON value, as serde_json holds it.
#[verifier::external_type_specification]
#[verifier::external_body]
pub struct ExJsonValue(serde_json::Value);

/// A BSON value, as bson holds it.
#[verifier::external_type_specification]
#[verifier::external_body]
pub struct ExBson(bson::Bson);

/// One operation of a JSON Patch (RFC 6902) on a subscription.
pub struct PatchItem {
    pub op: PatchOp,
    pub path: String,
    pub from: Option<String>,
    pub value: Option<serde_json::Value>,
}

#[derive(Debug, Clone, PartialEq)]
pub enum PatchOp {
    Add,
    Remove,
    Replace,
    Move,
    Copy,
    Test,
}

} // verus!
