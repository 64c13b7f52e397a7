//! The messages of the Nnssf_NSSelection service (3GPP TS 29.531).
use vstd::prelude::*;
use super::common::{NfType, PlmnId, Snssai, Tai};
use super::db::AccessType;

verus! {

#[derive(Debug, Clone, PartialEq)]
pub enum RoamingIndication {
    NonRoaming,
    LocalBreakout,
    HomeRoutedRoaming,
}

/// `nrf_oauth2_required` lists, per NF service name, whether OAuth2 is required;
/// each name occurs at most once (`service_flags_well_formed`).
#[derive(Debug, Clone)]
pub struct NsiInformation {
    pub nrf_id: String,
    pub nsi_id: Option<String>,
    pub nrf_nf_mgt_uri: Option<String>,
    pub nrf_access_token_uri: Option<String>,
    pub nrf_oauth2_required: Option<Vec<(String, bool)>>,
}

#[derive(Debug, Clone)]
pub struct AllowedSnssai {
    pub allowed_snssai: Snssai,
    pub nsi_information_list: Option<Vec<NsiInformation>>,
    pub mapped_home_snssai: Option<Snssai>,
}

#[derive(Debug, Clone)]
pub struct AllowedNssai {
    pub allowed_snssai_list: Vec<AllowedSnssai>,
    pub access_type: AccessType,
}

#[derive(Debug, Clone)]
pub struct ConfiguredSnssai {
    pub configured_snssai: Snssai,
    pub mapped_home_snssai: Option<Snssai>,
}

#[derive(Debug, Clone)]
pub struct MappingOfSnssai {
    pub serving_snssai: Snssai,
    pub home_snssai: Snssai,
}

#[derive(Debug, Clone)]
pub struct SubscribedSnssaiInfo {
    pub subscribed_snssai: Snssai,
    pub default_indication: Option<bool>,
    pub subscribed_ns_srg_list: Option<Vec<String>>,
}

#[derive(Debug, Clone)]
pub struct SliceInfoForRegistration {
    pub subscribed_nssai: Option<Vec<SubscribedSnssaiInfo>>,
    pub allowed_nssai_current_access: Option<AllowedNssai>,
    pub allowed_nssai_other_access: Option<AllowedNssai>,
    pub s_nssai_for_mapping: Option<Vec<Snssai>>,
    pub requested_nssai: Option<Vec<Snssai>>,
    pub default_configured_snssai_ind: Option<bool>,
    pub mapping_of_nssai: Option<Vec<MappingOfSnssai>>,
    pub request_mapping: Option<bool>,
    pub ue_sup_nssrg_ind: Option<bool>,
    pub suppress_nssrg_ind: Option<bool>,
    pub nsag_supported: Option<bool>,
}

#[derive(Debug, Clone)]
pub struct SliceInfoForPDUSession {
    pub s_nssai: Snssai,
    pub roaming_indication: RoamingIndication,
    pub home_snssai: Option<Snssai>,
}

#[derive(Debug, Clone)]
pub struct SliceInfoForUEConfigurationUpdate {
    pub subscribed_nssai: Option<Vec<SubscribedSnssaiInfo>>,
    pub allowed_nssai_current_access: Option<AllowedNssai>,
    pub allowed_nssai_other_access: Option<AllowedNssai>,
    pub default_configured_snssai_ind: Option<bool>,
    pub requested_nssai: Option<Vec<Snssai>>,
    pub mapping_of_nssai: Option<Vec<MappingOfSnssai>>,
    pub ue_sup_nssrg_ind: Option<bool>,
    pub suppress_nssrg_ind: Option<bool>,
    pub rejected_nssai_ra: Option<Vec<Snssai>>,
    pub nsag_supported: Option<bool>,
}

#[derive(Debug, Clone)]
pub struct TacRange {
    pub start: Option<String>,
    pub end: Option<String>,
}

#[derive(Debug, Clone)]
pub struct TaiRange {
    pub plmn_id: PlmnId,
    pub tac_range_list: Vec<TacRange>,
}

#[derive(Debug, Clone)]
pub struct NsagInfo {
    pub nsag_ids: Vec<u32>,
    pub snssai_list: Vec<Snssai>,
    pub tai_list: Option<Vec<Tai>>,
    pub tai_range_list: Option<Vec<TaiRange>>,
}

/// `nrf_oauth2_required` lists, per NF service name, whether OAuth2 is required;
/// each name occurs at most once (`service_flags_well_formed`).
#[derive(Debug, Clone)]
pub struct AuthorizedNetworkSliceInfo {
    pub allowed_nssai_list: Option<Vec<AllowedNssai>>,
    pub configured_nssai: Option<Vec<ConfiguredSnssai>>,
    pub target_amf_set: Option<String>,
    pub candidate_amf_list: Option<Vec<String>>,
    pub rejected_nssai_in_plmn: Option<Vec<Snssai>>,
    pub rejected_nssai_in_ta: Option<Vec<Snssai>>,
    pub nsi_information: Option<NsiInformation>,
    pub supported_features: Option<String>,
    pub nrf_amf_set: Option<String>,
    pub nrf_amf_set_nf_mgt_uri: Option<String>,
    pub nrf_amf_set_access_token_uri: Option<String>,
    pub nrf_oauth2_required: Option<Vec<(String, bool)>>,
    pub target_amf_service_set: Option<String>,
    pub target_nssai: Option<Vec<Snssai>>,
    pub nsag_infos: Option<Vec<NsagInfo>>,
    pub mapping_of_nssai: Option<Vec<MappingOfSnssai>>,
}

/// The query of a slice selection request; the slice information, the home
/// PLMN and the TAI arrive as JSON text.
#[derive(Debug, Clone)]
pub struct NsSelectionQueryParams {
    pub nf_type: NfType,
    pub nf_id: String,
    pub supi: Option<String>,
    pub slice_info_request_for_registration: Option<String>,
    pub slice_info_request_for_pdu_session: Option<String>,
    pub slice_info_request_for_ue_cu: Option<String>,
    pub home_plmn_id: Option<String>,
    pub tai: Option<String>,
    pub supported_features: Option<String>,
}

} // verus!
