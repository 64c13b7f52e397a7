//! A network slice selection request as the query string carries it: the
//! home PLMN, the TAI and one of the three kinds of slice information, each
//! parsed from JSON text (a parse failure carries the parser's message).
use vstd::prelude::*;
use crate::config::{parse_home_plmn_from_config, plmn_from_text, plmn_text_splittable};
use crate::errors::AppError;
use crate::services::network_slice_selection::{
    pdu_session_outcome, registration_outcome, select_for_pdu_session, select_for_registration,
    select_for_ue_cu, ue_cu_outcome,
};
use crate::runtime::current_time;
use crate::services::feature_negotiation::str_option_view;
use crate::services::selection_rules::tai_option;
use crate::services::network_slice_selection::listed_snssais;
use crate::types::common::copy_snssais;
use crate::services::store::{NssfStore, StoreUpdates};
use crate::services::subscription::{find_subscription, has_subscription};
use crate::types::common::{PlmnId, Tai, Timestamp};
use crate::types::nsselection::{
    AuthorizedNetworkSliceInfo, SliceInfoForPDUSession, SliceInfoForRegistration,
    SliceInfoForUEConfigurationUpdate,
};
use crate::validation::{
    requested_nssai_error, supi_mcc, supi_mnc, supi_valid, validate_requested_nssai, validate_supi,
};

verus! {

/// The parts of a selection query, the JSON ones parsed.
pub struct SelectionQuery {
    pub supi: Option<String>,
    pub home_plmn_id: Option<Result<PlmnId, String>>,
    pub tai: Option<Result<Tai, String>>,
    pub slice_info_for_registration: Option<Result<SliceInfoForRegistration, String>>,
    pub slice_info_for_pdu_session: Option<Result<SliceInfoForPDUSession, String>>,
    pub slice_info_for_ue_cu: Option<Result<SliceInfoForUEConfigurationUpdate, String>>,
    pub supported_features: Option<String>,
}

/// The slice information of a request.
pub enum SliceInfoRequest {
    Registration(SliceInfoForRegistration),
    PduSession(SliceInfoForPDUSession),
    UeConfigurationUpdate(SliceInfoForUEConfigurationUpdate),
}

/// The error is a bad request with the message `m`.
pub open spec fn bad_request(e: AppError, m: Seq<char>) -> bool {
    e matches AppError::BadRequest(text) && text@ == m
}

/// The home PLMN of a request: the one it names; failing that, the one of
/// its SUPI; failing that, the configured one. A home PLMN that does not
/// parse is a bad request.
pub open spec fn home_plmn_resolution(
    parsed: Option<Result<PlmnId, String>>,
    supi: Option<String>,
    configured: &str,
    r: Result<PlmnId, AppError>,
) -> bool {
    match parsed {
        Some(Ok(p)) => r == Ok::<PlmnId, AppError>(p),
        Some(Err(e)) => r matches Err(err) && bad_request(err, "Invalid home-plmn-id: "@ + e@),
        None => {
            &&& r matches Ok(p)
            &&& match supi {
                Some(s) if supi_valid(s@) => p.mcc@ == supi_mcc(s@) && p.mnc@ == supi_mnc(s@),
                _ => plmn_from_text(configured@, p),
            }
        },
    }
}

fn prefixed(prefix: &str, text: &String) -> (r: String)
    ensures
        r@ == prefix@ + text@,
{
    let mut r = prefix.to_owned();
    r.append(text.as_str());
    r
}

pub fn resolve_home_plmn(
    parsed: Option<Result<PlmnId, String>>,
    supi: &Option<String>,
    configured_home_plmn: &str,
) -> (r: Result<PlmnId, AppError>)
    requires
        plmn_text_splittable(configured_home_plmn@),
    ensures
        home_plmn_resolution(parsed, *supi, configured_home_plmn, r),
{
    match parsed {
        Some(Ok(p)) => Ok(p),
        Some(Err(e)) => Err(AppError::BadRequest(prefixed("Invalid home-plmn-id: ", &e))),
        None => {
            if let Some(s) = supi {
                if let Some((_, plmn)) = validate_supi(s.as_str()) {
                    return Ok(plmn);
                }
            }
            Ok(parse_home_plmn_from_config(configured_home_plmn))
        },
    }
}

/// The TAI of a request, if it names one; one that does not parse is a bad request.
pub open spec fn tai_resolution(parsed: Option<Result<Tai, String>>, r: Result<Option<Tai>, AppError>) -> bool {
    match parsed {
        Some(Ok(t)) => r == Ok::<Option<Tai>, AppError>(Some(t)),
        Some(Err(e)) => r matches Err(err) && bad_request(err, "Invalid tai: "@ + e@),
        None => r == Ok::<Option<Tai>, AppError>(None),
    }
}

pub fn resolve_tai(parsed: Option<Result<Tai, String>>) -> (r: Result<Option<Tai>, AppError>)
    ensures
        tai_resolution(parsed, r),
{
    match parsed {
        Some(Ok(t)) => Ok(Some(t)),
        Some(Err(e)) => Err(AppError::BadRequest(prefixed("Invalid tai: ", &e))),
        None => Ok(None),
    }
}

/// The message of a request without slice information.
pub open spec fn missing_slice_info_message() -> Seq<char> {
    "One of slice-info-request-for-registration, slice-info-request-for-pdu-session, or slice-info-request-for-ue-cu must be provided"@
}

/// The slice information of a request: that for a registration, else that
/// for a PDU session, else that for a UE configuration update, whichever it
/// carries first; one that does not parse is a bad request, and so is a
/// request with none.
pub open spec fn slice_info_choice(
    registration: Option<Result<SliceInfoForRegistration, String>>,
    pdu_session: Option<Result<SliceInfoForPDUSession, String>>,
    ue_cu: Option<Result<SliceInfoForUEConfigurationUpdate, String>>,
    r: Result<SliceInfoRequest, AppError>,
) -> bool {
    match registration {
        Some(Ok(si)) => r == Ok::<SliceInfoRequest, AppError>(SliceInfoRequest::Registration(si)),
        Some(Err(e)) => r matches Err(err) && bad_request(
            err,
            "Invalid slice-info-request-for-registration: "@ + e@,
        ),
        None => match pdu_session {
            Some(Ok(si)) => r == Ok::<SliceInfoRequest, AppError>(SliceInfoRequest::PduSession(si)),
            Some(Err(e)) => r matches Err(err) && bad_request(
                err,
                "Invalid slice-info-request-for-pdu-session: "@ + e@,
            ),
            None => match ue_cu {
                Some(Ok(si)) => r == Ok::<SliceInfoRequest, AppError>(
                    SliceInfoRequest::UeConfigurationUpdate(si),
                ),
                Some(Err(e)) => r matches Err(err) && bad_request(
                    err,
                    "Invalid slice-info-request-for-ue-cu: "@ + e@,
                ),
                None => r matches Err(err) && bad_request(err, missing_slice_info_message()),
            },
        },
    }
}

pub fn choose_slice_info(
    registration: Option<Result<SliceInfoForRegistration, String>>,
    pdu_session: Option<Result<SliceInfoForPDUSession, String>>,
    ue_cu: Option<Result<SliceInfoForUEConfigurationUpdate, String>>,
) -> (r: Result<SliceInfoRequest, AppError>)
    ensures
        slice_info_choice(registration, pdu_session, ue_cu, r),
{
    match registration {
        Some(Ok(si)) => {
            return Ok(SliceInfoRequest::Registration(si));
        },
        Some(Err(e)) => {
            return Err(AppError::BadRequest(prefixed("Invalid slice-info-request-for-registration: ", &e)));
        },
        None => {},
    }
    match pdu_session {
        Some(Ok(si)) => {
            return Ok(SliceInfoRequest::PduSession(si));
        },
        Some(Err(e)) => {
            return Err(AppError::BadRequest(prefixed("Invalid slice-info-request-for-pdu-session: ", &e)));
        },
        None => {},
    }
    match ue_cu {
        Some(Ok(si)) => Ok(SliceInfoRequest::UeConfigurationUpdate(si)),
        Some(Err(e)) => Err(AppError::BadRequest(prefixed("Invalid slice-info-request-for-ue-cu: ", &e))),
        None => Err(
            AppError::BadRequest(
                "One of slice-info-request-for-registration, slice-info-request-for-pdu-session, or slice-info-request-for-ue-cu must be provided".to_owned(),
            ),
        ),
    }
}

/// The answer to a selection request: the slice information, and, for a
/// registration of a subscribed UE in which nothing was allowed, the store named no AMF and
/// S-NSSAIs were requested, those S-NSSAIs, for which the NRF is to be asked
/// for AMFs of the home PLMN that the request resolved to.
pub struct SelectionAnswer {
    pub info: AuthorizedNetworkSliceInfo,
    pub amf_discovery: Option<Vec<crate::types::common::Snssai>>,
    pub home_plmn: PlmnId,
}

/// The SUPI of a request; the empty text when it has none.
pub open spec fn supi_or_empty(supi: Option<String>) -> Seq<char> {
    match supi {
        Some(s) => s@,
        None => Seq::empty(),
    }
}

pub open spec fn features_text(features: Option<String>) -> Option<Seq<char>> {
    match features {
        Some(f) => Some(f@),
        None => None,
    }
}

/// Whether a registration answer leaves the AMFs to the NRF: the UE has a
/// subscription, S-NSSAIs were requested, none was allowed, and the store
/// named no AMF set or candidate.
pub open spec fn needs_amf_discovery(
    subscribed: bool,
    requested: Seq<crate::types::common::Snssai>,
    info: AuthorizedNetworkSliceInfo,
) -> bool {
    &&& subscribed
    &&& requested.len() > 0
    &&& info.allowed_nssai_list is None
    &&& info.target_amf_set is None
    &&& info.candidate_amf_list is None
}

/// The home PLMN that a request resolves to, when it resolves (see `home_plmn_resolution`).
pub open spec fn home_plmn_value(
    parsed: Option<Result<PlmnId, String>>,
    supi: Option<String>,
    configured: &str,
    plmn: PlmnId,
) -> bool {
    home_plmn_resolution(parsed, supi, configured, Ok::<PlmnId, AppError>(plmn))
}

pub open spec fn tai_value(parsed: Option<Result<Tai, String>>) -> Option<Tai> {
    match parsed {
        Some(Ok(t)) => Some(t),
        _ => None,
    }
}

/// The outcome of a selection request: the home PLMN, the TAI and the slice
/// information are resolved in that order, the first failure answering;
/// then the selection for the kind of slice information decides, for the
/// SUPI of the request (the empty text when it has none).
pub open spec fn selection_outcome(
    query: SelectionQuery,
    configured_home_plmn: &str,
    now: Timestamp,
    store0: NssfStore,
    updates0: StoreUpdates,
    store1: NssfStore,
    updates1: StoreUpdates,
    r: Result<SelectionAnswer, AppError>,
) -> bool {
    let unchanged = store1 == store0 && updates1 == updates0;
    let info_result = match r {
        Ok(a) => Ok::<AuthorizedNetworkSliceInfo, AppError>(a.info),
        Err(e) => Err::<AuthorizedNetworkSliceInfo, AppError>(e),
    };
    let supi = supi_or_empty(query.supi);
    let features = features_text(query.supported_features);
    let tai = tai_value(query.tai);
    let fails_with = |m: Seq<char>| (r matches Err(err) && bad_request(err, m)) && unchanged;
    if let Some(Err(e)) = query.home_plmn_id {
        fails_with("Invalid home-plmn-id: "@ + e@)
    } else if let Some(Err(e)) = query.tai {
        fails_with("Invalid tai: "@ + e@)
    } else {
        match query.slice_info_for_registration {
            Some(Err(e)) => fails_with("Invalid slice-info-request-for-registration: "@ + e@),
            Some(Ok(si)) => exists|h: PlmnId| {
                &&& #[trigger] home_plmn_value(query.home_plmn_id, query.supi, configured_home_plmn, h)
                &&& (r matches Ok(a) ==> a.home_plmn == h)
                &&& registration_outcome(info_result, si, h, supi, tai, features, now, store0, updates0, store1, updates1)
                &&& (r matches Ok(a) ==> match a.amf_discovery {
                    Some(v) => needs_amf_discovery(has_subscription(store0.subscriptions@, supi, h), listed_snssais(si.requested_nssai), a.info)
                        && v@ == listed_snssais(si.requested_nssai),
                    None => !needs_amf_discovery(has_subscription(store0.subscriptions@, supi, h), listed_snssais(si.requested_nssai), a.info),
                })
            },
            None => match query.slice_info_for_pdu_session {
                Some(Err(e)) => fails_with("Invalid slice-info-request-for-pdu-session: "@ + e@),
                Some(Ok(si)) => exists|h: PlmnId| {
                    &&& #[trigger] home_plmn_value(query.home_plmn_id, query.supi, configured_home_plmn, h)
                    &&& (r matches Ok(a) ==> a.home_plmn == h)
                    &&& pdu_session_outcome(info_result, si, h, supi, tai, features, now, store0, updates0, store1, updates1)
                    &&& (r matches Ok(a) ==> a.amf_discovery is None)
                },
                None => match query.slice_info_for_ue_cu {
                    Some(Err(e)) => fails_with("Invalid slice-info-request-for-ue-cu: "@ + e@),
                    Some(Ok(si)) => exists|h: PlmnId| {
                        &&& #[trigger] home_plmn_value(query.home_plmn_id, query.supi, configured_home_plmn, h)
                        &&& (r matches Ok(a) ==> a.home_plmn == h)
                        &&& ue_cu_outcome(info_result, si, h, supi, tai, features, now, store0, updates0, store1, updates1)
                        &&& (r matches Ok(a) ==> a.amf_discovery is None)
                    },
                    None => fails_with(missing_slice_info_message()),
                },
            },
        }
    }
}

/// Why a selection request is refused before the store is read, if it is:
/// a home PLMN, TAI or slice information that did not parse, no slice
/// information at all, or a requested NSSAI that is refused.
pub open spec fn query_refusal(query: SelectionQuery) -> Option<Seq<char>> {
    if let Some(Err(e)) = query.home_plmn_id {
        Some("Invalid home-plmn-id: "@ + e@)
    } else if let Some(Err(e)) = query.tai {
        Some("Invalid tai: "@ + e@)
    } else {
        match query.slice_info_for_registration {
            Some(Err(e)) => Some("Invalid slice-info-request-for-registration: "@ + e@),
            Some(Ok(si)) => requested_nssai_error(si.requested_nssai),
            None => match query.slice_info_for_pdu_session {
                Some(Err(e)) => Some("Invalid slice-info-request-for-pdu-session: "@ + e@),
                Some(Ok(_)) => None,
                None => match query.slice_info_for_ue_cu {
                    Some(Err(e)) => Some("Invalid slice-info-request-for-ue-cu: "@ + e@),
                    Some(Ok(si)) => requested_nssai_error(si.requested_nssai),
                    None => Some(missing_slice_info_message()),
                },
            },
        }
    }
}

/// Checks what a selection request can be refused for without the store
/// (see `query_refusal`); `law_query_refusal_needs_no_store` shows that the
/// selection answers the same refusal, whatever the store holds.
pub fn precheck_selection(query: &SelectionQuery) -> (r: Result<(), AppError>)
    ensures
        r is Ok <==> query_refusal(*query) is None,
        query_refusal(*query) matches Some(m) ==> (r matches Err(e) && bad_request(e, m)),
{
    if let Some(Err(e)) = &query.home_plmn_id {
        return Err(AppError::BadRequest(prefixed("Invalid home-plmn-id: ", e)));
    }
    if let Some(Err(e)) = &query.tai {
        return Err(AppError::BadRequest(prefixed("Invalid tai: ", e)));
    }
    match &query.slice_info_for_registration {
        Some(Err(e)) => Err(AppError::BadRequest(prefixed("Invalid slice-info-request-for-registration: ", e))),
        Some(Ok(si)) => validate_requested_nssai(&si.requested_nssai),
        None => match &query.slice_info_for_pdu_session {
            Some(Err(e)) => Err(AppError::BadRequest(prefixed("Invalid slice-info-request-for-pdu-session: ", e))),
            Some(Ok(_)) => Ok(()),
            None => match &query.slice_info_for_ue_cu {
                Some(Err(e)) => Err(AppError::BadRequest(prefixed("Invalid slice-info-request-for-ue-cu: ", e))),
                Some(Ok(si)) => validate_requested_nssai(&si.requested_nssai),
                None => Err(
                    AppError::BadRequest(
                        "One of slice-info-request-for-registration, slice-info-request-for-pdu-session, or slice-info-request-for-ue-cu must be provided".to_owned(),
                    ),
                ),
            },
        },
    }
}

/// A request refused before the store is read is refused by the selection
/// with the same message, whatever the store holds, and nothing is written.
pub proof fn law_query_refusal_needs_no_store(
    query: SelectionQuery,
    configured_home_plmn: &str,
    now: Timestamp,
    store0: NssfStore,
    updates0: StoreUpdates,
    store1: NssfStore,
    updates1: StoreUpdates,
    r: Result<SelectionAnswer, AppError>,
)
    requires
        query_refusal(query) is Some,
        selection_outcome(query, configured_home_plmn, now, store0, updates0, store1, updates1, r),
    ensures
        r matches Err(e) && bad_request(e, query_refusal(query)->Some_0),
        store1 == store0,
        updates1 == updates0,
{
}

/// Answers a network slice selection request at `now`.
pub fn answer_selection_at(
    query: SelectionQuery,
    configured_home_plmn: &str,
    store: &mut NssfStore,
    now: &Timestamp,
    updates: &mut StoreUpdates,
) -> (r: Result<SelectionAnswer, AppError>)
    requires
        plmn_text_splittable(configured_home_plmn@),
    ensures
        selection_outcome(query, configured_home_plmn, *now, *old(store), *old(updates), *final(store), *final(updates), r),
{
    let ghost q = query;
    let SelectionQuery {
        supi,
        home_plmn_id,
        tai,
        slice_info_for_registration,
        slice_info_for_pdu_session,
        slice_info_for_ue_cu,
        supported_features,
    } = query;
    let home_plmn_id = match resolve_home_plmn(home_plmn_id, &supi, configured_home_plmn) {
        Ok(h) => h,
        Err(e) => {
            return Err(e);
        },
    };
    let tai = match resolve_tai(tai) {
        Ok(t) => t,
        Err(e) => {
            return Err(e);
        },
    };
    let request = match choose_slice_info(slice_info_for_registration, slice_info_for_pdu_session, slice_info_for_ue_cu) {
        Ok(rq) => rq,
        Err(e) => {
            return Err(e);
        },
    };
    assert(home_plmn_value(q.home_plmn_id, q.supi, configured_home_plmn, home_plmn_id));
    let supi_text: &str = match &supi {
        Some(s) => s.as_str(),
        None => "",
    };
    proof {
        reveal_strlit("");
    }
    assert(supi_text@ == supi_or_empty(supi));
    let features: Option<&str> = match &supported_features {
        Some(f) => Some(f.as_str()),
        None => None,
    };
    assert(str_option_view(features) == features_text(supported_features));
    match request {
        SliceInfoRequest::Registration(si) => {
            let subscribed = find_subscription(&store.subscriptions, supi_text, &home_plmn_id).is_some();
            let outcome = select_for_registration(&si, &home_plmn_id, supi_text, tai.as_ref(), features, store, now, updates);
            let info = match outcome {
                Ok(info) => info,
                Err(e) => {
                    return Err(e);
                },
            };
            let requested = match &si.requested_nssai {
                Some(v) => v.len() > 0,
                None => false,
            };
            let wanted = subscribed && requested && info.allowed_nssai_list.is_none() && info.target_amf_set.is_none()
                && info.candidate_amf_list.is_none();
            let amf_discovery = if wanted {
                match &si.requested_nssai {
                    Some(v) => Some(copy_snssais(v)),
                    None => None,
                }
            } else {
                None
            };
            Ok(SelectionAnswer { info, amf_discovery, home_plmn: home_plmn_id })
        },
        SliceInfoRequest::PduSession(si) => {
            let outcome = select_for_pdu_session(&si, &home_plmn_id, supi_text, tai.as_ref(), features, store, now, updates);
            match outcome {
                Ok(info) => Ok(SelectionAnswer { info, amf_discovery: None, home_plmn: home_plmn_id }),
                Err(e) => Err(e),
            }
        },
        SliceInfoRequest::UeConfigurationUpdate(si) => {
            let outcome = select_for_ue_cu(&si, &home_plmn_id, supi_text, tai.as_ref(), features, store, now, updates);
            match outcome {
                Ok(info) => Ok(SelectionAnswer { info, amf_discovery: None, home_plmn: home_plmn_id }),
                Err(e) => Err(e),
            }
        },
    }
}

/// Answers a network slice selection request at the current time.
pub fn get_network_slice_information(
    query: SelectionQuery,
    configured_home_plmn: &str,
    store: &mut NssfStore,
    updates: &mut StoreUpdates,
) -> (r: Result<SelectionAnswer, AppError>)
    requires
        plmn_text_splittable(configured_home_plmn@),
    ensures
        exists|now: Timestamp|
            now.nanos < 2_000_000_000 && selection_outcome(
                query,
                configured_home_plmn,
                now,
                *old(store),
                *old(updates),
                *final(store),
                *final(updates),
                r,
            ),
{
    let now = current_time();
    answer_selection_at(query, configured_home_plmn, store, &now, updates)
}

} // verus!
