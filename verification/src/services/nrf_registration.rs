//! This NSSF as the NRF sees it: the NF profile it registers, the requests
//! it sends to the NRF and what it makes of the NRF's answers.
use vstd::prelude::*;
use crate::config::{parse_plmn, plmn_from_text, plmn_text_splittable, Config};
use crate::runtime::{is_random_uuid_text, new_uuid_text};
use crate::types::common::{NfStatus, NfType, PlmnId};
use crate::types::nrf::{NFProfile, NFService, NFServiceVersion, NfServiceStatus, PatchOp, PatchOperation, SearchResult};

verus! {

/// A service of this NSSF: a fresh instance identifier, the name, one API
/// version, plain HTTP on the server host, registered, open to AMFs.
pub open spec fn offered_service(
    service: NFService,
    name: Seq<char>,
    api_version_in_uri: Seq<char>,
    api_full_version: Seq<char>,
    host: Seq<char>,
) -> bool {
    &&& is_random_uuid_text(service.service_instance_id@)
    &&& service.service_name@ == name
    &&& service.versions@.len() == 1
    &&& service.versions@[0].api_version_in_uri@ == api_version_in_uri
    &&& service.versions@[0].api_full_version@ == api_full_version
    &&& service.scheme@ == "http"@
    &&& service.nf_service_status is Registered
    &&& service.fqdn is None
    &&& (service.ipv4_addresses matches Some(a) && a@.len() == 1 && a@[0]@ == host)
    &&& service.api_prefix is None
    &&& service.allowed_plmns is None
    &&& (service.allowed_nf_types matches Some(t) && t@ == seq![NfType::Amf])
    &&& service.allowed_nssais is None
    &&& service.priority is None
    &&& service.capacity is None
    &&& service.load is None
    &&& service.supported_features is None
}

/// The NF profile of this NSSF: an NSSF, registered, in the PLMNs that the
/// configuration allows, on the server host, open to AMFs, with capacity
/// 100, load 0, a heartbeat every 60 seconds, and its two services.
pub open spec fn nssf_profile(profile: NFProfile, config: Config, nf_instance_id: Seq<char>) -> bool {
    &&& profile.nf_instance_id@ == nf_instance_id
    &&& profile.nf_type == NfType::Nssf
    &&& profile.nf_status == NfStatus::Registered
    &&& profile.plmn_list@.len() == config.allowed_plmns@.len()
    &&& forall|i: int|
        0 <= i < config.allowed_plmns@.len() ==> plmn_from_text(
            config.allowed_plmns@[i]@,
            #[trigger] profile.plmn_list@[i],
        )
    &&& profile.s_nssai_list is None
    &&& profile.nsi_list is None
    &&& profile.fqdn is None
    &&& (profile.ipv4_addresses matches Some(a) && a@.len() == 1 && a@[0]@ == config.server_host@)
    &&& profile.ipv6_addresses is None
    &&& profile.allowed_plmns is None
    &&& (profile.allowed_nf_types matches Some(t) && t@ == seq![NfType::Amf])
    &&& profile.priority is None
    &&& profile.capacity == Some(100u16)
    &&& profile.load == Some(0u16)
    &&& profile.locality is None
    &&& (profile.nf_services matches Some(s) && s@.len() == 2 && offered_service(
        s@[0],
        "nnssf-nsselection"@,
        "v2"@,
        "2.0.0"@,
        config.server_host@,
    ) && offered_service(s@[1], "nnssf-nssaiavailability"@, "v1"@, "1.0.0"@, config.server_host@))
    &&& profile.amf_info is None
    &&& profile.heart_beat_timer == Some(60u32)
}

fn service(name: &str, api_version_in_uri: &str, api_full_version: &str, host: &String) -> (r: NFService)
    ensures
        offered_service(r, name@, api_version_in_uri@, api_full_version@, host@),
{
    let mut versions: Vec<NFServiceVersion> = Vec::new();
    versions.push(
        NFServiceVersion {
            api_version_in_uri: api_version_in_uri.to_owned(),
            api_full_version: api_full_version.to_owned(),
        },
    );
    let mut hosts: Vec<String> = Vec::new();
    hosts.push(host.clone());
    let mut types: Vec<NfType> = Vec::new();
    types.push(NfType::Amf);
    assert(types@ =~= seq![NfType::Amf]);
    NFService {
        service_instance_id: new_uuid_text(),
        service_name: name.to_owned(),
        versions,
        scheme: "http".to_owned(),
        nf_service_status: NfServiceStatus::Registered,
        fqdn: None,
        ipv4_addresses: Some(hosts),
        api_prefix: None,
        allowed_plmns: None,
        allowed_nf_types: Some(types),
        allowed_nssais: None,
        priority: None,
        capacity: None,
        load: None,
        supported_features: None,
    }
}

/// The NF profile with which this NSSF registers with the NRF.
pub fn build_nf_profile(config: &Config, nf_instance_id: &str) -> (r: NFProfile)
    requires
        forall|i: int| 0 <= i < config.allowed_plmns@.len() ==> plmn_text_splittable(#[trigger] config.allowed_plmns@[i]@),
    ensures
        nssf_profile(r, *config, nf_instance_id@),
{
    let mut plmn_list: Vec<PlmnId> = Vec::new();
    let mut i: usize = 0;
    while i < config.allowed_plmns.len()
        invariant
            i <= config.allowed_plmns@.len(),
            forall|k: int| 0 <= k < config.allowed_plmns@.len() ==> plmn_text_splittable(#[trigger] config.allowed_plmns@[k]@),
            plmn_list@.len() == i,
            forall|k: int| 0 <= k < i ==> plmn_from_text(config.allowed_plmns@[k]@, #[trigger] plmn_list@[k]),
        decreases config.allowed_plmns.len() - i,
    {
        plmn_list.push(parse_plmn(config.allowed_plmns[i].as_str()));
        i = i + 1;
    }
    let mut services: Vec<NFService> = Vec::new();
    services.push(service("nnssf-nsselection", "v2", "2.0.0", &config.server_host));
    services.push(service("nnssf-nssaiavailability", "v1", "1.0.0", &config.server_host));
    let mut hosts: Vec<String> = Vec::new();
    hosts.push(config.server_host.clone());
    let mut types: Vec<NfType> = Vec::new();
    types.push(NfType::Amf);
    assert(types@ =~= seq![NfType::Amf]);
    NFProfile {
        nf_instance_id: nf_instance_id.to_owned(),
        nf_type: NfType::Nssf,
        nf_status: NfStatus::Registered,
        plmn_list,
        s_nssai_list: None,
        nsi_list: None,
        fqdn: None,
        ipv4_addresses: Some(hosts),
        ipv6_addresses: None,
        allowed_plmns: None,
        allowed_nf_types: Some(types),
        priority: None,
        capacity: Some(100),
        load: Some(0),
        locality: None,
        nf_services: Some(services),
        amf_info: None,
        heart_beat_timer: Some(60),
    }
}

/// The heartbeat period: four fifths of the NRF's heartbeat timer, in whole seconds.
pub fn heartbeat_interval_seconds(heartbeat_timer: u32) -> (r: u64)
    ensures
        r == heartbeat_timer * 4 / 5,
{
    heartbeat_timer as u64 * 4 / 5
}

/// The resource of an NF instance at the NRF.
pub fn nf_instance_url(base_url: &str, nf_instance_id: &str) -> (r: String)
    ensures
        r@ == base_url@ + "/nnrf-nfm/v1/nf-instances/"@ + nf_instance_id@,
{
    let mut r = base_url.to_owned();
    r.append("/nnrf-nfm/v1/nf-instances/");
    r.append(nf_instance_id);
    r
}

/// The query parameters after the first: `&name=value` for each, in order.
pub open spec fn extra_query(params: Seq<(String, String)>) -> Seq<char>
    decreases params.len(),
{
    if params.len() == 0 {
        Seq::empty()
    } else {
        extra_query(params.drop_last()) + "&"@ + params.last().0@ + "="@ + params.last().1@
    }
}

/// The NRF discovery request for NFs of a type, with further query parameters.
pub fn discovery_url(base_url: &str, target_nf_type: &NfType, params: &Vec<(String, String)>) -> (r: String)
    ensures
        r@ == base_url@ + "/nnrf-disc/v1/nf-instances?target-nf-type="@ + target_nf_type.wire_name()
            + extra_query(params@),
{
    let mut r = base_url.to_owned();
    r.append("/nnrf-disc/v1/nf-instances?target-nf-type=");
    r.append(target_nf_type.as_str());
    let ghost head = r@;
    let mut i: usize = 0;
    while i < params.len()
        invariant
            i <= params@.len(),
            r@ == head + extra_query(params@.take(i as int)),
        decreases params.len() - i,
    {
        let (name, value) = &params[i];
        r.append("&");
        r.append(name.as_str());
        r.append("=");
        r.append(value.as_str());
        i = i + 1;
        assert(params@.take(i as int).drop_last() =~= params@.take(i - 1));
        assert(r@ =~= head + extra_query(params@.take(i as int)));
    }
    assert(params@.take(i as int) =~= params@);
    r
}

/// The query parameters of the discovery of AMFs for S-NSSAIs in a PLMN:
/// the requester type NSSF, then the S-NSSAIs and the PLMN list as JSON text.
pub fn amf_discovery_params(snssais_json: String, plmn_list_json: String) -> (r: Vec<(String, String)>)
    ensures
        r@.len() == 3,
        r@[0].0@ == "requester-nf-type"@ && r@[0].1@ == "NSSF"@,
        r@[1].0@ == "snssais"@ && r@[1].1 == snssais_json,
        r@[2].0@ == "target-plmn-list"@ && r@[2].1 == plmn_list_json,
{
    let mut r: Vec<(String, String)> = Vec::new();
    r.push(("requester-nf-type".to_owned(), "NSSF".to_owned()));
    r.push(("snssais".to_owned(), snssais_json));
    r.push(("target-plmn-list".to_owned(), plmn_list_json));
    r
}

/// What to do with an answer of the NRF.
pub enum ReplyHandling {
    /// Read the body.
    ParseBody,
    /// Nothing to read.
    Nothing,
    /// No NF instance was found: the empty search result.
    EmptyResult,
    /// The request failed.
    Fail,
}

/// A registration is answered by 201 or 200 with the registered profile.
pub fn registration_reply(status: u16) -> (r: ReplyHandling)
    ensures
        if status == 200 || status == 201 { r is ParseBody } else { r is Fail },
{
    if status == 200 || status == 201 {
        ReplyHandling::ParseBody
    } else {
        ReplyHandling::Fail
    }
}

/// An update is answered by 200 with the profile, or by 204.
pub fn update_reply(status: u16) -> (r: ReplyHandling)
    ensures
        if status == 200 {
            r is ParseBody
        } else if status == 204 {
            r is Nothing
        } else {
            r is Fail
        },
{
    if status == 200 {
        ReplyHandling::ParseBody
    } else if status == 204 {
        ReplyHandling::Nothing
    } else {
        ReplyHandling::Fail
    }
}

/// A discovery is answered by 200 with a search result; 404 means no instance.
pub fn discovery_reply(status: u16) -> (r: ReplyHandling)
    ensures
        if status == 200 {
            r is ParseBody
        } else if status == 404 {
            r is EmptyResult
        } else {
            r is Fail
        },
{
    if status == 200 {
        ReplyHandling::ParseBody
    } else if status == 404 {
        ReplyHandling::EmptyResult
    } else {
        ReplyHandling::Fail
    }
}

/// What a discovery that the NRF answers "not found" yields: no instances,
/// and a complete count of zero.
pub fn empty_search_result() -> (r: SearchResult)
    ensures
        r.validity_period is None,
        r.nf_instances@.len() == 0,
        r.search_id is None,
        r.num_nf_inst_complete == Some(0u32),
{
    SearchResult { validity_period: None, nf_instances: Vec::new(), search_id: None, num_nf_inst_complete: Some(0) }
}

/// A deregistration is answered by 204 or 200.
pub fn deregistration_reply(status: u16) -> (r: ReplyHandling)
    ensures
        if status == 200 || status == 204 { r is Nothing } else { r is Fail },
{
    if status == 200 || status == 204 {
        ReplyHandling::Nothing
    } else {
        ReplyHandling::Fail
    }
}

/// The JSON string value whose text is `text`.
pub uninterp spec fn json_text_value(text: Seq<char>) -> serde_json::Value;

/// `serde_json::Value::String`: a text as a JSON string value, which
/// depends on the text alone (named `json_text_value`).
#[verifier::external_body]
fn json_string(text: &str) -> (r: serde_json::Value)
    ensures
        r == json_text_value(text@),
{
    serde_json::Value::String(text.to_owned())
}

/// The patch that a heartbeat sends: replace `/nfStatus` by `"REGISTERED"`.
pub fn heartbeat_patch() -> (r: Vec<PatchOperation>)
    ensures
        r@.len() == 1,
        r@[0].op is Replace,
        r@[0].path@ == "/nfStatus"@,
        r@[0].from is None,
        r@[0].value == Some(json_text_value("REGISTERED"@)),
{
    let mut r: Vec<PatchOperation> = Vec::new();
    r.push(
        PatchOperation {
            op: PatchOp::Replace,
            path: "/nfStatus".to_owned(),
            from: None,
            value: Some(json_string(NfStatus::Registered.as_str())),
        },
    );
    r
}

} // verus!
