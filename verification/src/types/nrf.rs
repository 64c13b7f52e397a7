//! The NRF's NF profiles and discovery results (3GPP TS 29.510).
use vstd::prelude::*;
use super::common::{NfStatus, NfType, PlmnId, Snssai, Tai};

verus! {

#[derive(Debug, Clone)]
pub struct NFProfile {
    pub nf_instance_id: String,
    pub nf_type: NfType,
    pub nf_status: NfStatus,
    pub plmn_list: Vec<PlmnId>,
    pub s_nssai_list: Option<Vec<Snssai>>,
    pub nsi_list: Option<Vec<String>>,
    pub fqdn: Option<String>,
    pub ipv4_addresses: Option<Vec<String>>,
    pub ipv6_addresses: Option<Vec<String>>,
    pub allowed_plmns: Option<Vec<PlmnId>>,
    pub allowed_nf_types: Option<Vec<NfType>>,
    pub priority: Option<u16>,
    pub capacity: Option<u16>,
    pub load: Option<u16>,
    pub locality: Option<String>,
    pub nf_services: Option<Vec<NFService>>,
    pub amf_info: Option<AmfInfo>,
    pub heart_beat_timer: Option<u32>,
}

#[derive(Debug, Clone)]
pub struct NFService {
    pub service_instance_id: String,
    pub service_name: String,
    pub versions: Vec<NFServiceVersion>,
    pub scheme: String,
    pub nf_service_status: NfServiceStatus,
    pub fqdn: Option<String>,
    pub ipv4_addresses: Option<Vec<String>>,
    pub api_prefix: Option<String>,
    pub allowed_plmns: Option<Vec<PlmnId>>,
    pub allowed_nf_types: Option<Vec<NfType>>,
    pub allowed_nssais: Option<Vec<Snssai>>,
    pub priority: Option<u16>,
    pub capacity: Option<u16>,
    pub load: Option<u16>,
    pub supported_features: Option<String>,
}

#[derive(Debug, Clone)]
pub struct NFServiceVersion {
    pub api_version_in_uri: String,
    pub api_full_version: String,
}

#[derive(Debug, Clone)]
pub enum NfServiceStatus {
    Registered,
    Suspended,
    Undiscoverable,
}

#[derive(Debug, Clone)]
pub struct NFRegisterRequest {
    pub nf_profile: NFProfile,
}

#[derive(Debug, Clone)]
pub struct NFRegisterResponse {
    pub nf_profile: NFProfile,
    pub validity_period: Option<u32>,
}

/// `nrf_altered_priorities` lists, per NF instance, the priority that the NRF
/// assigned; each instance occurs at most once (`keys_unique`).
#[derive(Debug, Clone)]
pub struct NfInstanceInfo {
    pub nrf_disc_api_uri: Option<String>,
    pub preferred_search: Option<PreferredSearch>,
    pub nrf_altered_priorities: Option<Vec<(String, u16)>>,
    pub nrf_supported_features: Option<String>,
}

#[derive(Debug, Clone)]
pub struct PreferredSearch {
    pub preferred_tai_match_ind: bool,
    pub preferred_full_plmn_match_ind: bool,
    pub preferred_api_versions_match_ind: Option<bool>,
    pub other_api_versions_ind: Option<bool>,
    pub preferred_locality_match_ind: bool,
    pub other_locality_ind: bool,
    pub preferred_vendor_specific_features_ind: bool,
    pub preferred_collocated_nf_type_ind: bool,
    pub preferred_pgw_match_ind: Option<bool>,
    pub preferred_analytics_delays_ind: Option<bool>,
    pub preferred_features_match_ind: Option<bool>,
    pub no_preferred_features_ind: Option<bool>,
}

#[derive(Debug, Clone)]
pub struct AmfInfo {
    pub amf_set_id: Option<String>,
    pub amf_region_id: Option<String>,
    pub guami_list: Option<Vec<Guami>>,
    pub tai_list: Option<Vec<Tai>>,
}

#[derive(Debug, Clone)]
pub struct Guami {
    pub plmn_id: PlmnId,
    pub amf_id: String,
}

#[derive(Debug, Clone)]
pub struct SearchResult {
    pub validity_period: Option<u32>,
    pub nf_instances: Vec<NFProfile>,
    pub search_id: Option<String>,
    pub num_nf_inst_complete: Option<u32>,
}

/// One operation of a JSON Patch (RFC 6902) on an NF profile.
pub struct PatchOperation {
    pub op: PatchOp,
    pub path: String,
    pub from: Option<String>,
    pub value: Option<serde_json::Value>,
}

#[derive(Debug, Clone)]
pub enum PatchOp {
    Add,
    Remove,
    Replace,
    Move,
    Copy,
    Test,
}

#[derive(Debug, Clone, PartialEq, Eq)]
pub enum ServiceName {
    NnssfNsselection,
    NnssfNssaiavailability,
}

impl ServiceName {
    pub open spec fn wire_name(self) -> Seq<char> {
        match self {
            ServiceName::NnssfNsselection => "nnssf-nsselection"@,
            ServiceName::NnssfNssaiavailability => "nnssf-nssaiavailability"@,
        }
    }

    pub fn as_str(&self) -> (r: &'static str)
        ensures
            r@ == self.wire_name(),
    {
        match self {
            ServiceName::NnssfNsselection => "nnssf-nsselection",
            ServiceName::NnssfNssaiavailability => "nnssf-nssaiavailability",
        }
    }
}

} // verus!
