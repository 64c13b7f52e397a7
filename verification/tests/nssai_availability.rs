use nssf::errors::AppError;
use nssf::services::nssai_availability::{
    build_subscription, create_subscription, delete_subscription, describe_subscription,
    field_of_path, get_subscription, patch_write, plan_subscription_update, subscription_location,
    update_subscription, FieldValue,
};
use nssf::types::common::{PlmnId, Tai, Timestamp};
use nssf::types::nssaiavailability::{NssfEventSubscriptionCreateData, NssfEventType, PatchItem, PatchOp};

fn request(tais: Option<Vec<Tai>>, amf_id: Option<&str>) -> NssfEventSubscriptionCreateData {
    NssfEventSubscriptionCreateData {
        nf_nssai_availability_uri: "http://amf/notify".to_string(),
        tai_list: tais,
        event: NssfEventType::SnssaiStatusChangeReport,
        additional_events: None,
        expiry: Some("2030-01-01T00:00:00Z".to_string()),
        amf_set_id: None,
        tai_range_list: None,
        amf_id: amf_id.map(|a| a.to_string()),
        supported_features: Some("4".to_string()),
        all_amf_set_tai_ind: None,
    }
}

fn tai(tac: &str) -> Tai {
    Tai { plmn_id: PlmnId { mcc: "001".to_string(), mnc: "01".to_string() }, tac: tac.to_string() }
}

fn patch(op: PatchOp, path: &str, value: Option<serde_json::Value>) -> PatchItem {
    PatchItem { op, path: path.to_string(), from: None, value }
}

#[test]
fn subscription_record_takes_the_first_tai() {
    let now = Timestamp { secs: 10, nanos: 5 };
    let (record, answer) = build_subscription(request(Some(vec![tai("0002"), tai("0003")]), Some("amf-1")), "sub-1".to_string(), now);
    assert_eq!(record.subscription_id, "sub-1");
    assert_eq!(record.nf_instance_id, "amf-1");
    assert_eq!(record.subscription_data.tai.tac, "0002");
    assert_eq!(record.notification_uri, "http://amf/notify");
    assert_eq!(record.created_at, now);
    assert_eq!(record.updated_at, now);
    assert_eq!(answer.subscription_id, "sub-1");
    assert_eq!(answer.expiry, Some("2030-01-01T00:00:00Z".to_string()));
    assert_eq!(answer.supported_features, Some("4".to_string()));
}

#[test]
fn subscription_without_tai_gets_the_placeholder() {
    let (record, _) = build_subscription(request(None, None), "s".to_string(), Timestamp { secs: 0, nanos: 0 });
    assert_eq!(record.nf_instance_id, "");
    assert_eq!(record.subscription_data.tai.plmn_id.mcc, "000");
    assert_eq!(record.subscription_data.tai.plmn_id.mnc, "00");
    assert_eq!(record.subscription_data.tai.tac, "0000");
    let (record, _) = build_subscription(request(Some(vec![]), None), "s".to_string(), Timestamp { secs: 0, nanos: 0 });
    assert_eq!(record.subscription_data.tai.tac, "0000");
}

#[test]
fn created_subscription_has_a_random_uuid() {
    let (record, answer) = create_subscription(request(None, None));
    let id = record.subscription_id.clone();
    assert_eq!(id.len(), 36);
    assert_eq!(&id[14..15], "4");
    assert_eq!(answer.subscription_id, id);
    let (other, _) = create_subscription(request(None, None));
    assert_ne!(other.subscription_id, id);
}

#[test]
fn missing_subscription_is_not_found() {
    match get_subscription(None) {
        Err(AppError::NotFound(m)) => assert_eq!(m, "Subscription not found"),
        _ => panic!("expected not found"),
    }
    assert!(delete_subscription(0).is_err());
    assert!(delete_subscription(1).is_ok());
}

#[test]
fn description_and_location() {
    let (record, _) = build_subscription(request(None, None), "abc".to_string(), Timestamp { secs: 0, nanos: 0 });
    let d = describe_subscription(&record);
    assert_eq!(d.subscription_id, "abc");
    assert!(d.authorized_nssai_availability_data.is_none());
    assert_eq!(subscription_location("abc"), "/nnssf-nssaiavailability/v1/subscriptions/abc");
}

#[test]
fn patch_paths_become_dotted_fields() {
    assert_eq!(field_of_path("/subscriptionData/tai"), "subscriptionData.tai");
    assert_eq!(field_of_path("//expiry"), "expiry");
    assert_eq!(field_of_path("notificationUri"), "notificationUri");
    assert_eq!(field_of_path(""), "");
}

#[test]
fn patch_plan_writes_fields_in_order() {
    let now = Timestamp { secs: 3, nanos: 0 };
    let patches = vec![
        patch(PatchOp::Replace, "/expiry", Some(serde_json::Value::String("x".to_string()))),
        patch(PatchOp::Add, "/a/b", None),
        patch(PatchOp::Remove, "/supportedFeatures", None),
    ];
    let fields = plan_subscription_update(&patches, now).unwrap();
    assert_eq!(fields.len(), 3);
    assert_eq!(fields[0].field, "expiry");
    assert!(matches!(fields[0].value, FieldValue::Value(_)));
    assert_eq!(fields[1].field, "supportedFeatures");
    assert!(matches!(fields[1].value, FieldValue::Null));
    assert_eq!(fields[2].field, "updatedAt");
    assert!(matches!(fields[2].value, FieldValue::Time(t) if t == now));
}

#[test]
fn unsupported_patch_operation_is_refused() {
    let patches = vec![patch(PatchOp::Remove, "/x", None), patch(PatchOp::Move, "/y", None)];
    match plan_subscription_update(&patches, Timestamp { secs: 0, nanos: 0 }) {
        Err(AppError::BadRequest(m)) => assert_eq!(m, "Unsupported patch operation: Move"),
        _ => panic!("expected a bad request"),
    }
}

#[test]
fn unconvertible_value_is_refused() {
    let big = serde_json::Value::from(u64::MAX);
    let patches = vec![patch(PatchOp::Add, "/n", Some(big))];
    match plan_subscription_update(&patches, Timestamp { secs: 0, nanos: 0 }) {
        Err(AppError::BadRequest(m)) => assert!(m.starts_with("Invalid patch value: "), "{}", m),
        _ => panic!("expected a bad request"),
    }
}

#[test]
fn update_of_missing_subscription_is_not_found_first() {
    let patches = vec![patch(PatchOp::Test, "/x", None)];
    assert!(matches!(update_subscription(None, "s", &patches), Err(AppError::NotFound(_))));
    let (record, _) = build_subscription(request(None, None), "old".to_string(), Timestamp { secs: 0, nanos: 0 });
    let (fields, answer) = update_subscription(Some(record), "requested", &vec![]).unwrap();
    assert_eq!(fields.len(), 1);
    assert_eq!(answer.subscription_id, "requested");
    assert_eq!(answer.expiry, Some("2030-01-01T00:00:00Z".to_string()));
}

#[test]
fn reading_back_a_created_subscription_answers_as_its_creation() {
    let mut data = request(Some(vec![tai("0001")]), Some("amf-9"));
    data.expiry = Some("2030-01-01T00:00:00Z".to_string());
    data.supported_features = Some("1A".to_string());
    let (record, created) = create_subscription(data);
    let stored = get_subscription(Some(record)).unwrap();
    let described = describe_subscription(&stored);
    assert_eq!(described.subscription_id, created.subscription_id);
    assert_eq!(described.expiry, created.expiry);
    assert_eq!(described.supported_features, created.supported_features);
    assert!(described.authorized_nssai_availability_data.is_none());
}

#[test]
fn one_patch_writes_exactly_its_converted_value() {
    let p = patch(PatchOp::Replace, "/a/b", Some(serde_json::Value::from(5)));
    match patch_write(&p, Some(Ok(bson::Bson::Int32(5)))) {
        Ok(Some(u)) => {
            assert_eq!(u.field, "a.b");
            match u.value {
                FieldValue::Value(b) => assert_eq!(b, bson::Bson::Int32(5)),
                _ => panic!("expected a value"),
            }
        }
        _ => panic!("expected a write"),
    }
    match patch_write(&p, Some(Err("too large".to_string()))) {
        Err(AppError::BadRequest(m)) => assert_eq!(m, "Invalid patch value: too large"),
        _ => panic!("expected a refusal"),
    }
    let add_nothing = patch(PatchOp::Add, "/x", None);
    assert!(matches!(patch_write(&add_nothing, None), Ok(None)));
    let mv = patch(PatchOp::Move, "/x", None);
    match patch_write(&mv, None) {
        Err(AppError::BadRequest(m)) => assert_eq!(m, "Unsupported patch operation: Move"),
        _ => panic!("expected a refusal"),
    }
    match patch_write(&patch(PatchOp::Remove, "/y", None), None) {
        Ok(Some(u)) => assert!(matches!(u.value, FieldValue::Null)),
        _ => panic!("expected a removal"),
    }
}

#[test]
fn an_unsupported_operation_after_a_value_refuses_the_update() {
    let (record, _) = build_subscription(request(None, None), "s1".to_string(), Timestamp { secs: 0, nanos: 0 });
    let patches = vec![
        patch(PatchOp::Add, "/supportedFeatures", Some(serde_json::Value::String("1".to_string()))),
        patch(PatchOp::Copy, "/expiry", None),
    ];
    match update_subscription(Some(record), "s1", &patches) {
        Err(AppError::BadRequest(m)) => assert_eq!(m, "Unsupported patch operation: Copy"),
        _ => panic!("expected a refusal"),
    }
}

#[test]
fn a_patch_with_supported_operations_writes_each_value_in_order() {
    let patches = vec![
        patch(PatchOp::Add, "/supportedFeatures", Some(serde_json::Value::String("1".to_string()))),
        patch(PatchOp::Remove, "/expiry", None),
        patch(PatchOp::Replace, "/notificationUri", Some(serde_json::Value::String("http://x".to_string()))),
    ];
    let fields = plan_subscription_update(&patches, Timestamp { secs: 7, nanos: 0 }).ok().unwrap();
    assert_eq!(fields.len(), 4);
    assert_eq!(fields[0].field, "supportedFeatures");
    match &fields[0].value {
        FieldValue::Value(b) => assert_eq!(b, &bson::Bson::String("1".to_string())),
        _ => panic!("expected a value"),
    }
    assert!(matches!(fields[1].value, FieldValue::Null));
    match &fields[2].value {
        FieldValue::Value(b) => assert_eq!(b, &bson::Bson::String("http://x".to_string())),
        _ => panic!("expected a value"),
    }
    assert_eq!(fields[3].field, "updatedAt");
}
