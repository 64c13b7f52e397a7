//! What the configuration endpoints answer once the store has replied: the
//! refusal of a duplicate, the answer for a missing record, the messages of
//! success, and the reading of a record id given as 24 hexadecimal digits.
use vstd::prelude::*;
use crate::errors::AppError;
use crate::text::{all_hexdigits, contains_text, has_substring};
use crate::types::queries::{FilterTerm, FilterValue};

verus! {

/// The kinds of configuration record the service keeps.
#[derive(Debug, Clone, Copy, PartialEq, Eq, Structural)]
pub enum ConfigResource {
    Slice,
    AmfSet,
    AmfServiceSet,
    AmfInstance,
    Nsi,
    Nsag,
    Nssrg,
    Policy,
    SnssaiMapping,
    Subscription,
}

impl ConfigResource {
    /// The name of the record in messages.
    pub open spec fn label(self) -> Seq<char> {
        match self {
            ConfigResource::Slice => "Slice configuration"@,
            ConfigResource::AmfSet => "AMF set"@,
            ConfigResource::AmfServiceSet => "AMF service set"@,
            ConfigResource::AmfInstance => "AMF instance"@,
            ConfigResource::Nsi => "NSI configuration"@,
            ConfigResource::Nsag => "NSAG configuration"@,
            ConfigResource::Nssrg => "NSSRG configuration"@,
            ConfigResource::Policy => "Policy"@,
            ConfigResource::SnssaiMapping => "S-NSSAI mapping"@,
            ConfigResource::Subscription => "Subscription"@,
        }
    }

    /// The message that refuses a record whose key is already taken.
    pub open spec fn duplicate_text(self) -> Seq<char> {
        match self {
            ConfigResource::Slice => "Slice configuration already exists for this S-NSSAI and PLMN"@,
            ConfigResource::AmfSet => "AMF set already exists for this AMF set ID"@,
            ConfigResource::AmfServiceSet => "AMF service set already exists for this ID"@,
            ConfigResource::AmfInstance => "AMF instance already exists for this NF instance ID"@,
            ConfigResource::Nsi => "NSI configuration already exists for this NSI ID"@,
            ConfigResource::Nsag => "NSAG configuration already exists for this NSAG ID"@,
            ConfigResource::Nssrg => "NSSRG configuration already exists for this NSSRG ID"@,
            ConfigResource::Policy => "Policy already exists with this policy ID"@,
            ConfigResource::SnssaiMapping => "S-NSSAI mapping already exists with this mapping ID"@,
            ConfigResource::Subscription => "Subscription already exists for this SUPI and PLMN"@,
        }
    }

    /// The message for a record that is not there; subscriptions name the SUPI.
    pub open spec fn missing_text(self, key: Seq<char>) -> Seq<char> {
        match self {
            ConfigResource::Subscription => "Subscription not found for SUPI: "@ + key,
            _ => self.label() + " not found"@,
        }
    }

    /// The collection of the store that holds the records.
    pub open spec fn collection(self) -> Seq<char> {
        match self {
            ConfigResource::Slice => "slices"@,
            ConfigResource::AmfSet => "amf_sets"@,
            ConfigResource::AmfServiceSet => "amf_service_sets"@,
            ConfigResource::AmfInstance => "amf_instances"@,
            ConfigResource::Nsi => "nsi"@,
            ConfigResource::Nsag => "nsag_configurations"@,
            ConfigResource::Nssrg => "nssrg_configurations"@,
            ConfigResource::Policy => "policies"@,
            ConfigResource::SnssaiMapping => "snssai_mappings"@,
            ConfigResource::Subscription => "subscriptions"@,
        }
    }

    /// The stored field by which the API addresses one record.
    pub open spec fn key_field(self) -> Seq<char> {
        match self {
            ConfigResource::Slice => "_id"@,
            ConfigResource::AmfSet => "amfSetId"@,
            ConfigResource::AmfServiceSet => "amfServiceSetId"@,
            ConfigResource::AmfInstance => "nfInstanceId"@,
            ConfigResource::Nsi => "nsiId"@,
            ConfigResource::Nsag => "nsagId"@,
            ConfigResource::Nssrg => "nssrgId"@,
            ConfigResource::Policy => "policyId"@,
            ConfigResource::SnssaiMapping => "mappingId"@,
            ConfigResource::Subscription => "supi"@,
        }
    }

    pub fn collection_name(&self) -> (r: &'static str)
        ensures
            r@ == self.collection(),
    {
        match self {
            ConfigResource::Slice => "slices",
            ConfigResource::AmfSet => "amf_sets",
            ConfigResource::AmfServiceSet => "amf_service_sets",
            ConfigResource::AmfInstance => "amf_instances",
            ConfigResource::Nsi => "nsi",
            ConfigResource::Nsag => "nsag_configurations",
            ConfigResource::Nssrg => "nssrg_configurations",
            ConfigResource::Policy => "policies",
            ConfigResource::SnssaiMapping => "snssai_mappings",
            ConfigResource::Subscription => "subscriptions",
        }
    }

    pub fn key_field_name(&self) -> (r: &'static str)
        ensures
            r@ == self.key_field(),
    {
        match self {
            ConfigResource::Slice => "_id",
            ConfigResource::AmfSet => "amfSetId",
            ConfigResource::AmfServiceSet => "amfServiceSetId",
            ConfigResource::AmfInstance => "nfInstanceId",
            ConfigResource::Nsi => "nsiId",
            ConfigResource::Nsag => "nsagId",
            ConfigResource::Nssrg => "nssrgId",
            ConfigResource::Policy => "policyId",
            ConfigResource::SnssaiMapping => "mappingId",
            ConfigResource::Subscription => "supi",
        }
    }

    pub fn label_text(&self) -> (r: &'static str)
        ensures
            r@ == self.label(),
    {
        match self {
            ConfigResource::Slice => "Slice configuration",
            ConfigResource::AmfSet => "AMF set",
            ConfigResource::AmfServiceSet => "AMF service set",
            ConfigResource::AmfInstance => "AMF instance",
            ConfigResource::Nsi => "NSI configuration",
            ConfigResource::Nsag => "NSAG configuration",
            ConfigResource::Nssrg => "NSSRG configuration",
            ConfigResource::Policy => "Policy",
            ConfigResource::SnssaiMapping => "S-NSSAI mapping",
            ConfigResource::Subscription => "Subscription",
        }
    }

    fn label_with(&self, suffix: &str) -> (r: String)
        ensures
            r@ == self.label() + suffix@,
    {
        let mut text = self.label_text().to_owned();
        text.append(suffix);
        text
    }

    /// The message of a record created.
    pub fn created_message(&self) -> (r: String)
        ensures
            r@ == self.label() + " created successfully"@,
    {
        self.label_with(" created successfully")
    }

    /// The message of a record updated.
    pub fn updated_message(&self) -> (r: String)
        ensures
            r@ == self.label() + " updated successfully"@,
    {
        self.label_with(" updated successfully")
    }

    /// The message of a record deleted.
    pub fn deleted_message(&self) -> (r: String)
        ensures
            r@ == self.label() + " deleted successfully"@,
    {
        self.label_with(" deleted successfully")
    }

    /// The refusal of a record whose key is already taken.
    pub fn duplicate_error(&self) -> (r: AppError)
        ensures
            r matches AppError::BadRequest(m) && m@ == self.duplicate_text(),
    {
        let text = match self {
            ConfigResource::Slice => "Slice configuration already exists for this S-NSSAI and PLMN",
            ConfigResource::AmfSet => "AMF set already exists for this AMF set ID",
            ConfigResource::AmfServiceSet => "AMF service set already exists for this ID",
            ConfigResource::AmfInstance => "AMF instance already exists for this NF instance ID",
            ConfigResource::Nsi => "NSI configuration already exists for this NSI ID",
            ConfigResource::Nsag => "NSAG configuration already exists for this NSAG ID",
            ConfigResource::Nssrg => "NSSRG configuration already exists for this NSSRG ID",
            ConfigResource::Policy => "Policy already exists with this policy ID",
            ConfigResource::SnssaiMapping => "S-NSSAI mapping already exists with this mapping ID",
            ConfigResource::Subscription => "Subscription already exists for this SUPI and PLMN",
        };
        AppError::BadRequest(text.to_owned())
    }

    /// The answer for a record that is not there under `key`.
    pub fn missing_error(&self, key: &str) -> (r: AppError)
        ensures
            r matches AppError::NotFound(m) && m@ == self.missing_text(key@),
    {
        match self {
            ConfigResource::Subscription => {
                let mut text = "Subscription not found for SUPI: ".to_owned();
                text.append(key);
                AppError::NotFound(text)
            },
            _ => AppError::NotFound(self.label_with(" not found")),
        }
    }

    /// A creation once the store has said whether the key is taken: refused
    /// when it is, else the message to answer once the record is stored.
    pub fn creation_outcome(&self, already_exists: bool) -> (r: Result<String, AppError>)
        ensures
            already_exists ==> (r matches Err(AppError::BadRequest(m)) && m@ == self.duplicate_text()),
            !already_exists ==> (r matches Ok(m) && m@ == self.label() + " created successfully"@),
    {
        if already_exists {
            Err(self.duplicate_error())
        } else {
            Ok(self.created_message())
        }
    }

    /// An update once the store has said how many records matched `key`.
    pub fn update_outcome(&self, key: &str, matched_count: u64) -> (r: Result<String, AppError>)
        ensures
            matched_count == 0 ==> (r matches Err(AppError::NotFound(m)) && m@ == self.missing_text(key@)),
            matched_count > 0 ==> (r matches Ok(m) && m@ == self.label() + " updated successfully"@),
    {
        if matched_count == 0 {
            Err(self.missing_error(key))
        } else {
            Ok(self.updated_message())
        }
    }

    /// A deletion once the store has said how many records went.
    pub fn deletion_outcome(&self, key: &str, deleted_count: u64) -> (r: Result<String, AppError>)
        ensures
            deleted_count == 0 ==> (r matches Err(AppError::NotFound(m)) && m@ == self.missing_text(key@)),
            deleted_count > 0 ==> (r matches Ok(m) && m@ == self.label() + " deleted successfully"@),
    {
        if deleted_count == 0 {
            Err(self.missing_error(key))
        } else {
            Ok(self.deleted_message())
        }
    }

    /// A lookup of one record by `key`: the record, or the answer that it is not there.
    pub fn lookup_outcome<T>(&self, key: &str, found: Option<T>) -> (r: Result<T, AppError>)
        ensures
            found is None ==> (r matches Err(AppError::NotFound(m)) && m@ == self.missing_text(key@)),
            found matches Some(x) ==> r == Ok::<T, AppError>(x),
    {
        match found {
            Some(x) => Ok(x),
            None => Err(self.missing_error(key)),
        }
    }
}

/// The answer to a lookup of the subscriptions of a SUPI: all of them, or
/// the answer that there are none.
pub fn subscriptions_outcome<T>(supi: &str, found: Vec<T>) -> (r: Result<Vec<T>, AppError>)
    ensures
        found@.len() == 0 ==> (r matches Err(AppError::NotFound(m))
            && m@ == "No subscriptions found for SUPI: "@ + supi@),
        found@.len() > 0 ==> (r matches Ok(v) && v@ == found@),
{
    if found.len() == 0 {
        let mut text = "No subscriptions found for SUPI: ".to_owned();
        text.append(supi);
        Err(AppError::NotFound(text))
    } else {
        Ok(found)
    }
}

/// The store reports a record whose unique key is taken by an error whose
/// text holds this code.
pub open spec fn duplicate_key_code() -> Seq<char> {
    "E11000"@
}

/// Whether an error text of the store tells of a duplicate key.
pub fn is_duplicate_key_error(error_text: &str) -> (r: bool)
    ensures
        r == has_substring(error_text@, duplicate_key_code()),
{
    contains_text(error_text, "E11000")
}

/// The failure of storing a new slice configuration, from the store's error
/// text: a duplicate key is the client's error, anything else the service's.
pub fn slice_insert_failure(error_text: &str) -> (r: AppError)
    ensures
        has_substring(error_text@, duplicate_key_code()) ==> (r matches AppError::BadRequest(m)
            && m@ == ConfigResource::Slice.duplicate_text()),
        !has_substring(error_text@, duplicate_key_code()) ==> (r matches AppError::InternalServerError(m)
            && m@ == "Failed to create slice: "@ + error_text@),
{
    if is_duplicate_key_error(error_text) {
        ConfigResource::Slice.duplicate_error()
    } else {
        let mut text = "Failed to create slice: ".to_owned();
        text.append(error_text);
        AppError::InternalServerError(text)
    }
}

/// The value of a hexadecimal digit.
pub open spec fn hex_value(c: char) -> int {
    if '0' <= c && c <= '9' {
        c as int - 48
    } else if 'a' <= c && c <= 'f' {
        c as int - 87
    } else {
        c as int - 55
    }
}

/// The bytes that pairs of hexadecimal digits stand for, high digit first.
pub open spec fn hex_bytes(s: Seq<char>) -> Seq<u8> {
    Seq::new(s.len() / 2, |i: int| (hex_value(s[2 * i]) * 16 + hex_value(s[2 * i + 1])) as u8)
}

/// A record id in text: exactly 24 hexadecimal digits, of either case.
pub open spec fn is_record_id(s: Seq<char>) -> bool {
    s.len() == 24 && all_hexdigits(s)
}

/// `bson::oid::ObjectId::parse_str`, then the id's twelve bytes. The source
/// decodes the text as hexadecimal digits (either case) and accepts exactly
/// twelve bytes, so it succeeds on exactly 24 hexadecimal digits and the
/// bytes are those the pairs of digits stand for.
#[verifier::external_body]
fn object_id_bytes(text: &str) -> (r: Option<Vec<u8>>)
    ensures
        r is Some <==> is_record_id(text@),
        r matches Some(b) ==> b@ == hex_bytes(text@),
{
    bson::oid::ObjectId::parse_str(text).ok().map(|id| id.bytes().to_vec())
}

/// Reads the id of a slice configuration record: its twelve bytes, or the
/// refusal of a text that is no record id.
pub fn parse_record_id(id: &str) -> (r: Result<Vec<u8>, AppError>)
    ensures
        is_record_id(id@) ==> (r matches Ok(b) && b@ == hex_bytes(id@) && b@.len() == 12),
        !is_record_id(id@) ==> (r matches Err(AppError::BadRequest(m)) && m@ == "Invalid ObjectId: "@ + id@),
{
    match object_id_bytes(id) {
        Some(bytes) => Ok(bytes),
        None => {
            let mut text = "Invalid ObjectId: ".to_owned();
            text.append(id);
            Err(AppError::BadRequest(text))
        },
    }
}

/// The filter that picks the subscriptions of `supi`, narrowed to one PLMN
/// where both its MCC and its MNC are given.
pub fn subscription_filter(supi: &str, mcc: &Option<String>, mnc: &Option<String>) -> (r: Vec<FilterTerm>)
    ensures
        r@.len() == (if mcc is Some && mnc is Some { 3int } else { 1int }),
        r@[0].field@ == "supi"@ && (r@[0].value matches FilterValue::Text(t) && t@ == supi@),
        (mcc is Some && mnc is Some) ==> {
            &&& r@[1].field@ == "plmnId.mcc"@ && (r@[1].value matches FilterValue::Text(t) && t@ == mcc->0@)
            &&& r@[2].field@ == "plmnId.mnc"@ && (r@[2].value matches FilterValue::Text(t) && t@ == mnc->0@)
        },
{
    let mut terms: Vec<FilterTerm> = Vec::new();
    terms.push(FilterTerm { field: "supi".to_owned(), value: FilterValue::Text(supi.to_owned()) });
    if let Some(c) = mcc {
        if let Some(n) = mnc {
            terms.push(FilterTerm { field: "plmnId.mcc".to_owned(), value: FilterValue::Text(c.clone()) });
            terms.push(FilterTerm { field: "plmnId.mnc".to_owned(), value: FilterValue::Text(n.clone()) });
        }
    }
    terms
}

} // verus!
