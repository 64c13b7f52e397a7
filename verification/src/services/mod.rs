pub mod store;
pub mod ranking;
pub mod allowed_nssai;
pub mod feature_negotiation;
pub mod nsag_admission;
pub mod nssrg_processing;
pub mod snssai_mapping;
pub mod subscription;
pub mod amf_selection;
pub mod selection_rules;
pub mod network_slice_selection;
pub mod selection_request;
pub mod nssai_availability;
pub mod nrf_registration;
pub mod storage_layout;
pub mod configuration;
