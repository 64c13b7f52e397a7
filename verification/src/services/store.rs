//! The configuration that slice selection reads: the collections of the
//! store, as the application loaded them, in the order the store returned
//! them. Selection may raise the UE counts of NSAGs and NSSRGs; those writes
//! are recorded so that the application can persist them.
use vstd::prelude::*;
use crate::types::db::{
    AmfInstanceConfig, AmfServiceSetConfig, AmfSetConfig, NsagConfiguration, NsiConfiguration,
    NssrgConfiguration, SliceConfiguration, SlicePolicy, SnssaiMapping, UeSubscription,
};

verus! {

pub struct NssfStore {
    pub slices: Vec<SliceConfiguration>,
    pub nsis: Vec<NsiConfiguration>,
    pub policies: Vec<SlicePolicy>,
    pub snssai_mappings: Vec<SnssaiMapping>,
    pub nsags: Vec<NsagConfiguration>,
    pub nssrgs: Vec<NssrgConfiguration>,
    pub amf_sets: Vec<AmfSetConfig>,
    pub amf_service_sets: Vec<AmfServiceSetConfig>,
    pub amf_instances: Vec<AmfInstanceConfig>,
    pub subscriptions: Vec<UeSubscription>,
}

/// The writes that a selection made: the NSAGs (by identifier) whose UE
/// count it raised by one, and the NSSRGs likewise, each in the order made.
pub struct StoreUpdates {
    pub nsag_increments: Vec<u32>,
    pub nssrg_increments: Vec<String>,
}

impl StoreUpdates {
    pub fn new() -> (r: StoreUpdates)
        ensures
            r.nsag_increments@.len() == 0,
            r.nssrg_increments@.len() == 0,
    {
        StoreUpdates { nsag_increments: Vec::new(), nssrg_increments: Vec::new() }
    }
}

/// The largest count that the store can hold (its integers are signed 64-bit).
pub open spec fn max_stored_count() -> u64 {
    0x7fff_ffff_ffff_ffffu64
}

} // verus!
