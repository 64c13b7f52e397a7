//! The indexes that the store's collections carry: ascending keys, some of
//! them unique.
use vstd::prelude::*;

verus! {

/// An index of a collection: its keys, in order, each ascending.
pub struct IndexSpec {
    pub collection: String,
    pub keys: Vec<String>,
    pub unique: bool,
}

/// An index as plain text: collection, keys, uniqueness.
pub open spec fn index_view(index: IndexSpec) -> (Seq<char>, Seq<Seq<char>>, bool) {
    (index.collection@, index.keys@.map_values(|k: String| k@), index.unique)
}

/// The indexes of the store, in the order in which they are created.
pub open spec fn planned_indexes() -> Seq<(Seq<char>, Seq<Seq<char>>, bool)> {
    seq![
        ("slices"@, seq!["snssai.sst"@, "snssai.sd"@, "plmnId.mcc"@, "plmnId.mnc"@], true),
        ("subscriptions"@, seq!["supi"@, "plmnId.mcc"@, "plmnId.mnc"@], true),
        ("policies"@, seq!["snssai.sst"@, "snssai.sd"@, "plmnId.mcc"@, "plmnId.mnc"@], false),
        ("nsi"@, seq!["nsiId"@], true),
        ("nsi"@, seq!["snssai.sst"@, "snssai.sd"@, "plmnId.mcc"@, "plmnId.mnc"@], false),
        (
            "snssai_mappings"@,
            seq![
                "servingSnssai.sst"@,
                "servingSnssai.sd"@,
                "servingPlmn.mcc"@,
                "servingPlmn.mnc"@,
                "homePlmn.mcc"@,
                "homePlmn.mnc"@,
            ],
            true,
        ),
        ("nsag_configurations"@, seq!["nsagId"@], true),
        ("nssrg_configurations"@, seq!["nssrgId"@], true),
        ("amf_sets"@, seq!["amfSetId"@], true),
        ("amf_service_sets"@, seq!["amfSetId"@, "nrfId"@], true),
        ("amf_instances"@, seq!["nfInstanceId"@], true),
        ("nssai_availability_subscriptions"@, seq!["subscriptionId"@], true),
        ("nssai_availability_subscriptions"@, seq!["expiry"@], false),
    ]
}

fn index(collection: &str, keys: &[&str], unique: bool) -> (r: IndexSpec)
    ensures
        index_view(r) == (collection@, keys@.map_values(|k: &str| k@), unique),
{
    let mut names: Vec<String> = Vec::new();
    let mut i: usize = 0;
    while i < keys.len()
        invariant
            i <= keys@.len(),
            names@.len() == i,
            forall|j: int| 0 <= j < i ==> (#[trigger] names@[j])@ == keys@[j]@,
        decreases keys.len() - i,
    {
        names.push(keys[i].to_owned());
        i = i + 1;
    }
    assert(names@.map_values(|k: String| k@) =~= keys@.map_values(|k: &str| k@));
    IndexSpec { collection: collection.to_owned(), keys: names, unique }
}

/// The indexes to create on the store.
pub fn index_plan() -> (r: Vec<IndexSpec>)
    ensures
        r@.map_values(|i: IndexSpec| index_view(i)) == planned_indexes(),
{
    let snssai_plmn: [&str; 4] = ["snssai.sst", "snssai.sd", "plmnId.mcc", "plmnId.mnc"];
    let mut r: Vec<IndexSpec> = Vec::new();
    r.push(index("slices", &snssai_plmn, true));
    r.push(index("subscriptions", &["supi", "plmnId.mcc", "plmnId.mnc"], true));
    r.push(index("policies", &snssai_plmn, false));
    r.push(index("nsi", &["nsiId"], true));
    r.push(index("nsi", &snssai_plmn, false));
    r.push(
        index(
            "snssai_mappings",
            &[
                "servingSnssai.sst",
                "servingSnssai.sd",
                "servingPlmn.mcc",
                "servingPlmn.mnc",
                "homePlmn.mcc",
                "homePlmn.mnc",
            ],
            true,
        ),
    );
    r.push(index("nsag_configurations", &["nsagId"], true));
    r.push(index("nssrg_configurations", &["nssrgId"], true));
    r.push(index("amf_sets", &["amfSetId"], true));
    r.push(index("amf_service_sets", &["amfSetId", "nrfId"], true));
    r.push(index("amf_instances", &["nfInstanceId"], true));
    r.push(index("nssai_availability_subscriptions", &["subscriptionId"], true));
    r.push(index("nssai_availability_subscriptions", &["expiry"], false));
    assert(r@.map_values(|i: IndexSpec| index_view(i)) =~~= planned_indexes());
    r
}

} // verus!
