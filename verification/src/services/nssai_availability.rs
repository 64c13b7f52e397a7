//! Subscriptions to NSSAI availability (Nnssf_NSSAIAvailability): the record
//! that a subscription request creates, the changes that a JSON Patch makes
//! to it, and the answers when the subscription is missing.
use vstd::prelude::*;
use vstd::string::*;
use crate::errors::AppError;
use crate::runtime::{current_time, is_random_uuid_text, new_uuid_text};
use crate::types::common::{copy_opt_string, PlmnId, Tai, Timestamp};
use crate::types::db::{NssaiAvailabilitySubscription, NssaiAvailabilitySubscriptionData};
use crate::types::nssaiavailability::{
    NssfEventSubscriptionCreateData, NssfEventSubscriptionCreatedData, PatchItem, PatchOp,
};

verus! {

/// The TAI that stands for "no TAI given": PLMN 000-00, TAC 0000.
pub open spec fn placeholder_tai(tai: Tai) -> bool {
    tai.plmn_id.mcc@ == "000"@ && tai.plmn_id.mnc@ == "00"@ && tai.tac@ == "0000"@
}

/// The record of a new subscription: its identifier, the AMF that asked (the
/// empty text when none is named), the first TAI of the request (else the
/// placeholder TAI), the notification URI, the features and the expiry of
/// the request, created and updated at `now`.
pub open spec fn subscription_record(
    record: NssaiAvailabilitySubscription,
    data: NssfEventSubscriptionCreateData,
    subscription_id: Seq<char>,
    now: Timestamp,
) -> bool {
    &&& record.subscription_id@ == subscription_id
    &&& record.nf_instance_id@ == match data.amf_id {
        Some(a) => a@,
        None => Seq::empty(),
    }
    &&& match data.tai_list {
        Some(l) if l@.len() > 0 => record.subscription_data.tai == l@[0],
        _ => placeholder_tai(record.subscription_data.tai),
    }
    &&& record.subscription_data.supported_snssai_list is None
    &&& record.notification_uri == data.nf_nssai_availability_uri
    &&& record.supported_features == data.supported_features
    &&& record.expiry_time == data.expiry
    &&& record.created_at == now
    &&& record.updated_at == now
}

/// The answer to a subscription: its identifier, expiry and features.
pub open spec fn created_answer(
    answer: NssfEventSubscriptionCreatedData,
    subscription_id: Seq<char>,
    expiry: Option<String>,
    supported_features: Option<String>,
) -> bool {
    &&& answer.subscription_id@ == subscription_id
    &&& answer.expiry == expiry
    &&& answer.authorized_nssai_availability_data is None
    &&& answer.supported_features == supported_features
}

fn placeholder() -> (r: Tai)
    ensures
        placeholder_tai(r),
{
    Tai { plmn_id: PlmnId { mcc: "000".to_owned(), mnc: "00".to_owned() }, tac: "0000".to_owned() }
}

/// Builds the record of a new subscription and the answer to the request.
pub fn build_subscription(
    data: NssfEventSubscriptionCreateData,
    subscription_id: String,
    now: Timestamp,
) -> (r: (NssaiAvailabilitySubscription, NssfEventSubscriptionCreatedData))
    ensures
        subscription_record(r.0, data, subscription_id@, now),
        created_answer(r.1, subscription_id@, data.expiry, data.supported_features),
{
    let tai = match &data.tai_list {
        Some(l) => if l.len() > 0 {
            l[0].copy()
        } else {
            placeholder()
        },
        None => placeholder(),
    };
    let nf_instance_id = match &data.amf_id {
        Some(a) => a.clone(),
        None => String::new(),
    };
    let record = NssaiAvailabilitySubscription {
        subscription_id: subscription_id.clone(),
        nf_instance_id,
        subscription_data: NssaiAvailabilitySubscriptionData { tai, supported_snssai_list: None },
        notification_uri: data.nf_nssai_availability_uri.clone(),
        supported_features: copy_opt_string(&data.supported_features),
        expiry_time: copy_opt_string(&data.expiry),
        created_at: now,
        updated_at: now,
    };
    let answer = NssfEventSubscriptionCreatedData {
        subscription_id,
        expiry: data.expiry,
        authorized_nssai_availability_data: None,
        supported_features: data.supported_features,
    };
    (record, answer)
}

/// Creates a subscription: a fresh random identifier, the current time, and
/// the record and answer that `build_subscription` makes of them. Storing
/// the record is left to the caller.
pub fn create_subscription(data: NssfEventSubscriptionCreateData) -> (r: (
    NssaiAvailabilitySubscription,
    NssfEventSubscriptionCreatedData,
))
    ensures
        is_random_uuid_text(r.0.subscription_id@),
        r.0.created_at.nanos < 2_000_000_000,
        subscription_record(r.0, data, r.0.subscription_id@, r.0.created_at),
        created_answer(r.1, r.0.subscription_id@, data.expiry, data.supported_features),
{
    let subscription_id = new_uuid_text();
    let now = current_time();
    build_subscription(data, subscription_id, now)
}

/// The answer that describes a stored subscription.
pub fn describe_subscription(subscription: &NssaiAvailabilitySubscription) -> (r: NssfEventSubscriptionCreatedData)
    ensures
        created_answer(r, subscription.subscription_id@, subscription.expiry_time, subscription.supported_features),
{
    NssfEventSubscriptionCreatedData {
        subscription_id: subscription.subscription_id.clone(),
        expiry: copy_opt_string(&subscription.expiry_time),
        authorized_nssai_availability_data: None,
        supported_features: copy_opt_string(&subscription.supported_features),
    }
}

/// Reading a subscription back answers what creating it answered: the
/// description of a record made from a request carries the identifier,
/// expiry and features of the answer to that request.
pub proof fn law_read_back_matches_creation(
    record: NssaiAvailabilitySubscription,
    data: NssfEventSubscriptionCreateData,
    subscription_id: Seq<char>,
    now: Timestamp,
    created: NssfEventSubscriptionCreatedData,
    described: NssfEventSubscriptionCreatedData,
)
    requires
        subscription_record(record, data, subscription_id, now),
        created_answer(created, subscription_id, data.expiry, data.supported_features),
        created_answer(described, record.subscription_id@, record.expiry_time, record.supported_features),
    ensures
        described.subscription_id@ == created.subscription_id@,
        described.expiry == created.expiry,
        described.supported_features == created.supported_features,
        described.authorized_nssai_availability_data == created.authorized_nssai_availability_data,
{
}

/// The error of a subscription that the store does not hold.
pub open spec fn subscription_not_found(e: AppError) -> bool {
    e matches AppError::NotFound(m) && m@ == "Subscription not found"@
}

fn not_found() -> (e: AppError)
    ensures
        subscription_not_found(e),
{
    AppError::NotFound("Subscription not found".to_owned())
}

/// The subscription that the store returned, if it returned one.
pub fn get_subscription(found: Option<NssaiAvailabilitySubscription>) -> (r: Result<NssaiAvailabilitySubscription, AppError>)
    ensures
        match found {
            Some(s) => r == Ok::<NssaiAvailabilitySubscription, AppError>(s),
            None => r matches Err(e) && subscription_not_found(e),
        },
{
    match found {
        Some(s) => Ok(s),
        None => Err(not_found()),
    }
}

/// Deleting a subscription fails when the store deleted nothing.
pub fn delete_subscription(deleted_count: u64) -> (r: Result<(), AppError>)
    ensures
        deleted_count == 0 <==> r is Err,
        r matches Err(e) ==> subscription_not_found(e),
{
    if deleted_count == 0 {
        return Err(not_found());
    }
    Ok(())
}

/// The location of a subscription's resource.
pub fn subscription_location(subscription_id: &str) -> (r: String)
    ensures
        r@ == "/nnssf-nssaiavailability/v1/subscriptions/"@ + subscription_id@,
{
    let mut r = "/nnssf-nssaiavailability/v1/subscriptions/".to_owned();
    r.append(subscription_id);
    r
}

/// The number of `/` that begin the text.
pub open spec fn leading_slashes(path: Seq<char>) -> nat
    decreases path.len(),
{
    if path.len() > 0 && path[0] == '/' {
        1 + leading_slashes(path.drop_first())
    } else {
        0
    }
}

/// The text with every `/` written as `.`.
pub open spec fn dotted(path: Seq<char>) -> Seq<char> {
    path.map_values(|c: char| if c == '/' { '.' } else { c })
}

/// The field that a patch path names: the path without its leading `/`,
/// its other `/` written as `.`.
pub open spec fn patch_field(path: Seq<char>) -> Seq<char> {
    dotted(path.skip(leading_slashes(path) as int))
}

proof fn lemma_leading_slashes(path: Seq<char>, k: int)
    requires
        0 <= k <= path.len(),
        forall|i: int| 0 <= i < k ==> path[i] == '/',
        k == path.len() || path[k] != '/',
    ensures
        leading_slashes(path) == k,
    decreases k,
{
    if k > 0 {
        lemma_leading_slashes(path.drop_first(), k - 1);
    }
}

/// The field that a patch path names.
pub fn field_of_path(path: &str) -> (r: String)
    ensures
        r@ == patch_field(path@),
{
    let n = path.unicode_len();
    let mut k: usize = 0;
    while k < n && path.get_char(k) == '/'
        invariant
            n == path@.len(),
            k <= n,
            forall|i: int| 0 <= i < k ==> path@[i] == '/',
        decreases n - k,
    {
        k = k + 1;
    }
    proof {
        lemma_leading_slashes(path@, k as int);
    }
    let mut r = String::new();
    let mut i: usize = k;
    while i < n
        invariant
            n == path@.len(),
            k <= i <= n,
            k == leading_slashes(path@),
            r@ == dotted(path@.subrange(k as int, i as int)),
        decreases n - i,
    {
        let c = path.get_char(i);
        if c == '/' {
            r.append(".");
        } else {
            r.append(path.substring_char(i, i + 1));
        }
        proof {
            reveal_strlit(".");
        }
        i = i + 1;
        assert(r@ =~= dotted(path@.subrange(k as int, i as int)));
    }
    assert(path@.subrange(k as int, n as int) =~= path@.skip(k as int));
    r
}

/// What an update writes into a field of the subscription: a value, null,
/// or an instant.
pub enum FieldValue {
    Value(bson::Bson),
    Null,
    Time(Timestamp),
}

/// A field of the subscription and what the update writes into it.
pub struct FieldUpdate {
    pub field: String,
    pub value: FieldValue,
}

/// What bson makes of a JSON value: the BSON value, or the text of the
/// error when the value has no BSON form.
pub uninterp spec fn bson_of_json(value: serde_json::Value) -> Result<bson::Bson, Seq<char>>;

/// `bson::to_bson` on a JSON value, with the text of a failure. The result
/// depends on the value alone; which BSON value comes out, and for which
/// values it fails, is named (`bson_of_json`), not written out.
#[verifier::external_body]
fn json_to_bson(value: &serde_json::Value) -> (r: Result<bson::Bson, String>)
    ensures
        bson_of_json(*value) == match r {
            Ok(b) => Ok::<bson::Bson, Seq<char>>(b),
            Err(m) => Err::<bson::Bson, Seq<char>>(m@),
        },
{
    bson::to_bson(value).map_err(|e| e.to_string())
}

/// The name of a patch operation, as its `Debug` form writes it.
pub open spec fn op_name(op: PatchOp) -> Seq<char> {
    match op {
        PatchOp::Add => "Add"@,
        PatchOp::Remove => "Remove"@,
        PatchOp::Replace => "Replace"@,
        PatchOp::Move => "Move"@,
        PatchOp::Copy => "Copy"@,
        PatchOp::Test => "Test"@,
    }
}

/// Subscriptions take additions, replacements and removals.
pub open spec fn op_supported(op: PatchOp) -> bool {
    op is Add || op is Replace || op is Remove
}

/// The patch carries a value to write (an addition or replacement with a value).
pub open spec fn carries_value(patch: PatchItem) -> bool {
    (patch.op is Add || patch.op is Replace) && patch.value is Some
}

/// The patch writes a field: a removal, or an addition or replacement with a value.
pub open spec fn writes_field(patch: PatchItem) -> bool {
    patch.op is Remove || carries_value(patch)
}

/// The update writes, for each patch in order that writes a field, the
/// field it names (null for a removal, a value otherwise), then the time of
/// the update into `updatedAt`.
pub open spec fn planned_update(patches: Seq<PatchItem>, now: Timestamp, fields: Seq<FieldUpdate>) -> bool {
    let written = patches.filter(|p: PatchItem| writes_field(p));
    &&& fields.len() == written.len() + 1
    &&& forall|i: int|
        0 <= i < written.len() ==> {
            &&& (#[trigger] fields[i]).field@ == patch_field(written[i].path@)
            &&& if written[i].op is Remove {
                fields[i].value is Null
            } else {
                fields[i].value == FieldValue::Value(bson_of_json(written[i].value->0)->Ok_0)
            }
        }
    &&& fields[written.len() as int].field@ == "updatedAt"@
    &&& fields[written.len() as int].value == FieldValue::Time(now)
}

/// A patch is taken when subscriptions take its operation and the value it
/// carries, if any, has a BSON form.
pub open spec fn patch_accepted(patch: PatchItem) -> bool {
    &&& op_supported(patch.op)
    &&& carries_value(patch) ==> bson_of_json(patch.value->0) is Ok
}

/// The message that refuses a patch that is not taken.
pub open spec fn patch_refusal(patch: PatchItem) -> Seq<char> {
    if !op_supported(patch.op) {
        "Unsupported patch operation: "@ + op_name(patch.op)
    } else {
        "Invalid patch value: "@ + bson_of_json(patch.value->0)->Err_0
    }
}

/// Patch `k` is the first that is not taken.
pub open spec fn first_refused(patches: Seq<PatchItem>, k: int) -> bool {
    &&& 0 <= k < patches.len()
    &&& !patch_accepted(patches[k])
    &&& forall|j: int| 0 <= j < k ==> patch_accepted(#[trigger] patches[j])
}

fn op_debug_name(op: &PatchOp) -> (r: &'static str)
    ensures
        r@ == op_name(*op),
{
    match op {
        PatchOp::Add => "Add",
        PatchOp::Remove => "Remove",
        PatchOp::Replace => "Replace",
        PatchOp::Move => "Move",
        PatchOp::Copy => "Copy",
        PatchOp::Test => "Test",
    }
}

/// What one patch writes, given what its value converted to (`converted` is
/// present exactly when the patch carries a value): an operation other than
/// add, replace and remove is refused; a removal writes null into the field
/// it names; a value that converted writes that BSON value, one that did not
/// is refused with the converter's message; an addition or replacement
/// without a value writes nothing.
pub fn patch_write(patch: &PatchItem, converted: Option<Result<bson::Bson, String>>) -> (r: Result<Option<FieldUpdate>, AppError>)
    requires
        converted is Some <==> carries_value(*patch),
    ensures
        !op_supported(patch.op) ==> (r matches Err(e) && crate::services::selection_request::bad_request(
            e,
            "Unsupported patch operation: "@ + op_name(patch.op),
        )),
        patch.op is Remove ==> (r matches Ok(Some(u)) && u.field@ == patch_field(patch.path@) && u.value is Null),
        converted matches Some(Ok(b)) ==> (r matches Ok(Some(u)) && u.field@ == patch_field(patch.path@)
            && u.value == FieldValue::Value(b)),
        converted matches Some(Err(m)) ==> (r matches Err(e) && crate::services::selection_request::bad_request(
            e,
            "Invalid patch value: "@ + m@,
        )),
        (op_supported(patch.op) && !writes_field(*patch)) ==> r == Ok::<Option<FieldUpdate>, AppError>(None),
{
    match patch.op {
        PatchOp::Replace | PatchOp::Add => match converted {
            Some(Ok(b)) => Ok(Some(FieldUpdate { field: field_of_path(patch.path.as_str()), value: FieldValue::Value(b) })),
            Some(Err(msg)) => {
                let mut text = "Invalid patch value: ".to_owned();
                text.append(msg.as_str());
                Err(AppError::BadRequest(text))
            },
            None => Ok(None),
        },
        PatchOp::Remove => Ok(Some(FieldUpdate { field: field_of_path(patch.path.as_str()), value: FieldValue::Null })),
        _ => {
            let mut text = "Unsupported patch operation: ".to_owned();
            text.append(op_debug_name(&patch.op));
            Err(AppError::BadRequest(text))
        },
    }
}

/// The writes of a JSON Patch on a subscription at `now` (see
/// `planned_update`): it succeeds exactly when every patch is taken; a patch
/// with an operation other than add, replace and remove is refused, and so
/// is a value without a BSON form; the first refusal in patch order answers.
pub fn plan_subscription_update(patches: &Vec<PatchItem>, now: Timestamp) -> (r: Result<Vec<FieldUpdate>, AppError>)
    ensures
        r is Ok <==> forall|j: int| 0 <= j < patches@.len() ==> patch_accepted(#[trigger] patches@[j]),
        r matches Ok(fields) ==> planned_update(patches@, now, fields@),
        forall|k: int| #[trigger] first_refused(patches@, k) ==> (r matches Err(e)
            && crate::services::selection_request::bad_request(e, patch_refusal(patches@[k]))),
{
    let ghost keep = |p: PatchItem| writes_field(p);
    let mut fields: Vec<FieldUpdate> = Vec::new();
    let mut i: usize = 0;
    while i < patches.len()
        invariant
            i <= patches@.len(),
            keep == (|p: PatchItem| writes_field(p)),
            forall|j: int| 0 <= j < i ==> patch_accepted(#[trigger] patches@[j]),
            fields@.len() == patches@.take(i as int).filter(keep).len(),
            forall|m: int|
                0 <= m < fields@.len() ==> {
                    let w = patches@.take(i as int).filter(keep)[m];
                    &&& (#[trigger] fields@[m]).field@ == patch_field(w.path@)
                    &&& if w.op is Remove {
                        fields@[m].value is Null
                    } else {
                        fields@[m].value == FieldValue::Value(bson_of_json(w.value->0)->Ok_0)
                    }
                },
        decreases patches.len() - i,
    {
        let patch = &patches[i];
        let ghost prev = patches@.take(i as int).filter(keep);
        let ghost next = patches@.take(i + 1);
        assert(next.drop_last() =~= patches@.take(i as int));
        assert(next.last() == *patch);
        assert(next.filter(keep) == if keep(*patch) {
            prev.push(*patch)
        } else {
            prev
        }) by {
            reveal(Seq::filter);
        }
        let converted = match (&patch.op, &patch.value) {
            (PatchOp::Replace, Some(value)) | (PatchOp::Add, Some(value)) => Some(json_to_bson(value)),
            _ => None,
        };
        match patch_write(patch, converted) {
            Ok(Some(update)) => {
                fields.push(update);
            },
            Ok(None) => {},
            Err(e) => {
                proof {
                    assert(!patch_accepted(patches@[i as int]));
                    assert(first_refused(patches@, i as int));
                    assert forall|k: int| #[trigger] first_refused(patches@, k) implies k == i by {
                        if k < i {
                            assert(patch_accepted(patches@[k]));
                        } else if k > i {
                            assert(patch_accepted(patches@[i as int]));
                        }
                    }
                }
                return Err(e);
            },
        }
        i = i + 1;
    }
    assert(patches@.take(i as int) =~= patches@);
    let ghost written = patches@.filter(keep);
    fields.push(FieldUpdate { field: "updatedAt".to_owned(), value: FieldValue::Time(now) });
    assert(planned_update(patches@, now, fields@));
    Ok(fields)
}

/// Updates a subscription by a JSON Patch at the current time: a missing
/// subscription answers "not found" before the patch is looked at; otherwise
/// the writes of `plan_subscription_update`, and the answer that describes
/// the subscription as it was (its expiry and features) under the requested identifier.
pub fn update_subscription(
    existing: Option<NssaiAvailabilitySubscription>,
    subscription_id: &str,
    patches: &Vec<PatchItem>,
) -> (r: Result<(Vec<FieldUpdate>, NssfEventSubscriptionCreatedData), AppError>)
    ensures
        existing is None ==> (r matches Err(e) && subscription_not_found(e)),
        existing matches Some(s) ==> (r matches Ok((fields, answer)) ==> created_answer(
            answer,
            subscription_id@,
            s.expiry_time,
            s.supported_features,
        )),
        existing is Some ==> (r is Ok <==> forall|j: int|
            0 <= j < patches@.len() ==> patch_accepted(#[trigger] patches@[j])),
        r is Ok ==> exists|now: Timestamp|
            now.nanos < 2_000_000_000 && #[trigger] planned_update(patches@, now, r->Ok_0.0@),
        forall|k: int| #[trigger] first_refused(patches@, k) && existing is Some ==> (r matches Err(e)
            && crate::services::selection_request::bad_request(e, patch_refusal(patches@[k]))),
{
    let record = match existing {
        Some(s) => s,
        None => {
            return Err(not_found());
        },
    };
    let now = current_time();
    let fields = match plan_subscription_update(patches, now) {
        Ok(f) => f,
        Err(e) => {
            return Err(e);
        },
    };
    let answer = NssfEventSubscriptionCreatedData {
        subscription_id: subscription_id.to_owned(),
        expiry: record.expiry_time,
        authorized_nssai_availability_data: None,
        supported_features: record.supported_features,
    };
    assert(now.nanos < 2_000_000_000 && planned_update(patches@, now, fields@));
    let r = Ok((fields, answer));
    assert(r->Ok_0.0@ == fields@);
    assert(exists|n: Timestamp| n.nanos < 2_000_000_000 && #[trigger] planned_update(patches@, n, r->Ok_0.0@));
    r
}

} // verus!
