use nssf::errors::AppError;
use nssf::services::configuration::{
    is_duplicate_key_error, parse_record_id, slice_insert_failure, subscription_filter,
    subscriptions_outcome, ConfigResource,
};
use nssf::types::queries::FilterValue;

fn bad_request(e: AppError) -> String {
    match e {
        AppError::BadRequest(m) => m,
        other => panic!("expected a bad request, got {:?}", other),
    }
}

fn not_found(e: AppError) -> String {
    match e {
        AppError::NotFound(m) => m,
        other => panic!("expected not found, got {:?}", other),
    }
}

#[test]
fn creation_is_refused_when_the_key_is_taken() {
    let r = ConfigResource::AmfSet.creation_outcome(true);
    assert_eq!(bad_request(r.unwrap_err()), "AMF set already exists for this AMF set ID");
    let r = ConfigResource::Policy.creation_outcome(true);
    assert_eq!(bad_request(r.unwrap_err()), "Policy already exists with this policy ID");
}

#[test]
fn creation_answers_the_created_message() {
    assert_eq!(
        ConfigResource::Nsag.creation_outcome(false).unwrap(),
        "NSAG configuration created successfully"
    );
    assert_eq!(
        ConfigResource::SnssaiMapping.creation_outcome(false).unwrap(),
        "S-NSSAI mapping created successfully"
    );
}

#[test]
fn update_of_nothing_is_not_found() {
    let r = ConfigResource::AmfInstance.update_outcome("amf-1", 0);
    assert_eq!(not_found(r.unwrap_err()), "AMF instance not found");
    let r = ConfigResource::Subscription.update_outcome("imsi-001010000000001", 0);
    assert_eq!(
        not_found(r.unwrap_err()),
        "Subscription not found for SUPI: imsi-001010000000001"
    );
    assert_eq!(
        ConfigResource::Nsi.update_outcome("nsi-1", 1).unwrap(),
        "NSI configuration updated successfully"
    );
}

#[test]
fn deletion_of_nothing_is_not_found() {
    let r = ConfigResource::Slice.deletion_outcome("x", 0);
    assert_eq!(not_found(r.unwrap_err()), "Slice configuration not found");
    assert_eq!(
        ConfigResource::Nssrg.deletion_outcome("g", 3).unwrap(),
        "NSSRG configuration deleted successfully"
    );
}

#[test]
fn lookup_returns_the_record_or_not_found() {
    assert_eq!(ConfigResource::AmfServiceSet.lookup_outcome("s1", Some(7)).unwrap(), 7);
    let r = ConfigResource::AmfServiceSet.lookup_outcome::<u8>("s1", None);
    assert_eq!(not_found(r.unwrap_err()), "AMF service set not found");
}

#[test]
fn subscriptions_of_an_unknown_supi_are_not_found() {
    let r = subscriptions_outcome::<u8>("imsi-1", vec![]);
    assert_eq!(not_found(r.unwrap_err()), "No subscriptions found for SUPI: imsi-1");
    assert_eq!(subscriptions_outcome("imsi-1", vec![1u8, 2]).unwrap(), vec![1u8, 2]);
}

#[test]
fn duplicate_key_errors_are_recognised() {
    assert!(is_duplicate_key_error(
        "E11000 duplicate key error collection: nssf.slices index: snssai_plmn"
    ));
    assert!(is_duplicate_key_error("write error: E11000"));
    assert!(!is_duplicate_key_error("connection refused"));
    assert!(!is_duplicate_key_error("E1100"));
}

#[test]
fn slice_insert_failures_are_classified() {
    assert_eq!(
        bad_request(slice_insert_failure("E11000 duplicate key")),
        "Slice configuration already exists for this S-NSSAI and PLMN"
    );
    match slice_insert_failure("timed out") {
        AppError::InternalServerError(m) => assert_eq!(m, "Failed to create slice: timed out"),
        other => panic!("unexpected {:?}", other),
    }
}

#[test]
fn record_ids_are_read_as_twelve_bytes() {
    let bytes = parse_record_id("507f1f77bcf86cd799439011").unwrap();
    assert_eq!(
        bytes,
        vec![0x50, 0x7f, 0x1f, 0x77, 0xbc, 0xf8, 0x6c, 0xd7, 0x99, 0x43, 0x90, 0x11]
    );
    let upper = parse_record_id("507F1F77BCF86CD799439011").unwrap();
    assert_eq!(upper, bytes);
}

#[test]
fn malformed_record_ids_are_refused() {
    assert_eq!(bad_request(parse_record_id("xyz").unwrap_err()), "Invalid ObjectId: xyz");
    assert_eq!(
        bad_request(parse_record_id("507f1f77bcf86cd79943901g").unwrap_err()),
        "Invalid ObjectId: 507f1f77bcf86cd79943901g"
    );
    assert!(parse_record_id("507f1f77bcf86cd7994390110").is_err());
}

#[test]
fn records_live_in_their_collections_under_their_keys() {
    assert_eq!(ConfigResource::Slice.collection_name(), "slices");
    assert_eq!(ConfigResource::Slice.key_field_name(), "_id");
    assert_eq!(ConfigResource::AmfServiceSet.collection_name(), "amf_service_sets");
    assert_eq!(ConfigResource::AmfServiceSet.key_field_name(), "amfServiceSetId");
    assert_eq!(ConfigResource::Nsag.collection_name(), "nsag_configurations");
    assert_eq!(ConfigResource::Nsag.key_field_name(), "nsagId");
    assert_eq!(ConfigResource::Subscription.key_field_name(), "supi");
    assert_eq!(ConfigResource::SnssaiMapping.label_text(), "S-NSSAI mapping");
}

fn text_of(v: &FilterValue) -> String {
    match v {
        FilterValue::Text(t) => t.clone(),
        other => panic!("expected text, got {:?}", other),
    }
}

#[test]
fn subscription_filters_narrow_to_a_plmn_only_when_both_parts_are_given() {
    let f = subscription_filter("imsi-1", &Some("001".to_string()), &Some("01".to_string()));
    assert_eq!(f.len(), 3);
    assert_eq!(f[0].field, "supi");
    assert_eq!(text_of(&f[0].value), "imsi-1");
    assert_eq!(f[1].field, "plmnId.mcc");
    assert_eq!(text_of(&f[1].value), "001");
    assert_eq!(f[2].field, "plmnId.mnc");
    assert_eq!(text_of(&f[2].value), "01");
    let f = subscription_filter("imsi-1", &Some("001".to_string()), &None);
    assert_eq!(f.len(), 1);
    assert_eq!(f[0].field, "supi");
}
