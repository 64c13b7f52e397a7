//! The records that the configuration store holds.
use vstd::prelude::*;
use super::common::{PlmnId, Snssai, Tai, Timestamp};
use super::nrf::Guami;

verus! {

#[derive(Debug, Clone, PartialEq)]
pub enum AccessType {
    ThreeGppAccess,
    Non3GppAccess,
}

/// A slice offered in a PLMN. `id` is the hexadecimal form of the record's
/// object identifier in the store.
#[derive(Debug, Clone)]
pub struct SliceConfiguration {
    pub id: Option<String>,
    pub snssai: Snssai,
    pub plmn_id: PlmnId,
    pub access_type: Option<AccessType>,
    pub tai_list: Option<Vec<Tai>>,
    pub is_default: Option<bool>,
    pub priority: Option<u32>,
    pub max_ue_support: Option<u64>,
}

#[derive(Debug, Clone)]
pub struct SubscribedSnssai {
    pub subscribed_snssai: Snssai,
    pub default_indication: Option<bool>,
    pub subscribed_nssrg_list: Option<Vec<String>>,
}

#[derive(Debug, Clone)]
pub struct UeSubscription {
    pub supi: String,
    pub plmn_id: PlmnId,
    pub subscribed_snssais: Vec<SubscribedSnssai>,
    pub default_snssai: Option<Snssai>,
}

/// A network slice instance. `nrf_oauth2_required` lists, per NF service
/// name, whether OAuth2 is required; each name occurs at most once
/// (`service_flags_well_formed`).
#[derive(Debug, Clone)]
pub struct NsiConfiguration {
    pub nsi_id: String,
    pub snssai: Snssai,
    pub plmn_id: PlmnId,
    pub nrf_id: String,
    pub nrf_nf_mgt_uri: Option<String>,
    pub nrf_access_token_uri: Option<String>,
    pub nrf_oauth2_required: Option<Vec<(String, bool)>>,
    pub tai_list: Option<Vec<Tai>>,
    pub priority: Option<u32>,
    pub load_level: Option<u32>,
}

#[derive(Debug, Clone)]
pub struct TimeWindow {
    pub start_time: String,
    pub end_time: String,
    pub days_of_week: Option<Vec<u8>>,
}

#[derive(Debug, Clone)]
pub struct SlicePolicy {
    pub policy_id: String,
    pub snssai: Snssai,
    pub plmn_id: PlmnId,
    pub max_ues_per_slice: Option<u64>,
    pub max_sessions_per_ue: Option<u32>,
    pub priority_level: Option<u32>,
    pub allowed_time_windows: Option<Vec<TimeWindow>>,
    pub denied_time_windows: Option<Vec<TimeWindow>>,
    pub min_priority_level: Option<u32>,
    pub max_load_level: Option<u32>,
    pub required_subscription_tier: Option<String>,
    pub allowed_tai_list: Option<Vec<Tai>>,
    pub denied_tai_list: Option<Vec<Tai>>,
    pub enabled: bool,
}

#[derive(Debug, Clone)]
pub struct SnssaiMapping {
    pub mapping_id: String,
    pub serving_plmn_id: PlmnId,
    pub home_plmn_id: PlmnId,
    pub serving_snssai: Snssai,
    pub home_snssai: Snssai,
    pub validity_area: Option<Vec<Tai>>,
}

#[derive(Debug, Clone)]
pub struct TaiRange {
    pub start: String,
    pub end: String,
    pub plmn_id: PlmnId,
}

#[derive(Debug, Clone)]
pub struct NsagConfiguration {
    pub nsag_id: u32,
    pub snssai_list: Vec<Snssai>,
    pub plmn_id: PlmnId,
    pub tai_list: Option<Vec<Tai>>,
    pub tai_range_list: Option<Vec<TaiRange>>,
    pub max_ue_count: Option<u64>,
    pub current_ue_count: Option<u64>,
    pub priority: Option<u32>,
    pub enabled: bool,
}

#[derive(Debug, Clone)]
pub struct NssrgConfiguration {
    pub nssrg_id: String,
    pub snssai_list: Vec<Snssai>,
    pub plmn_id: PlmnId,
    pub tai_list: Option<Vec<Tai>>,
    pub tai_range_list: Option<Vec<TaiRange>>,
    pub max_ue_count: Option<u64>,
    pub current_ue_count: Option<u64>,
    pub priority: Option<u32>,
    pub enabled: bool,
}

/// An AMF set. `nrf_oauth2_required` lists, per NF service name, whether
/// OAuth2 is required; each name occurs at most once (`service_flags_well_formed`).
#[derive(Debug, Clone)]
pub struct AmfSetConfig {
    pub amf_set_id: String,
    pub plmn_id: PlmnId,
    pub supported_snssais: Vec<Snssai>,
    pub nrf_id: String,
    pub nrf_nf_mgt_uri: Option<String>,
    pub nrf_access_token_uri: Option<String>,
    pub nrf_oauth2_required: Option<Vec<(String, bool)>>,
    pub priority: Option<u32>,
    pub capacity: Option<u32>,
}

#[derive(Debug, Clone)]
pub struct AmfServiceSetConfig {
    pub amf_service_set_id: String,
    pub amf_set_id: String,
    pub plmn_id: PlmnId,
    pub supported_snssais: Vec<Snssai>,
    pub nrf_id: String,
    pub priority: Option<u32>,
}

#[derive(Debug, Clone)]
pub struct AmfInstanceConfig {
    pub nf_instance_id: String,
    pub amf_set_id: String,
    pub amf_service_set_id: Option<String>,
    pub plmn_id: PlmnId,
    pub supported_snssais: Vec<Snssai>,
    pub guami: Option<Guami>,
    pub capacity: Option<u32>,
    pub load_level: Option<u32>,
}

#[derive(Debug, Clone)]
pub struct NssaiAvailabilitySubscriptionData {
    pub tai: Tai,
    pub supported_snssai_list: Option<Vec<Snssai>>,
}

#[derive(Debug, Clone)]
pub struct NssaiAvailabilitySubscription {
    pub subscription_id: String,
    pub nf_instance_id: String,
    pub subscription_data: NssaiAvailabilitySubscriptionData,
    pub notification_uri: String,
    pub supported_features: Option<String>,
    pub expiry_time: Option<String>,
    pub created_at: Timestamp,
    pub updated_at: Timestamp,
}

} // verus!
