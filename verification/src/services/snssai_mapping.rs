//! Mapping of a serving-PLMN S-NSSAI to the home-PLMN S-NSSAI that it stands
//! for, by the mapping records of the store.
use vstd::prelude::*;
use crate::services::allowed_nssai::{plmn_eq, plmn_same, tai_list_admits, tai_list_admits_tai};
use crate::services::store::NssfStore;
use crate::types::common::{PlmnId, Snssai, Tai};
use crate::types::db::SnssaiMapping;
use crate::validation::{snssai_eq, snssai_same};

verus! {

/// A mapping record applies to the serving S-NSSAI between the two PLMNs:
/// its serving S-NSSAI has the same SST and denotes the same slice, and its
/// serving and home PLMNs are the given ones.
pub open spec fn mapping_applies(
    mapping: SnssaiMapping,
    serving_snssai: Snssai,
    serving_plmn: PlmnId,
    home_plmn: PlmnId,
) -> bool {
    &&& mapping.serving_snssai.sst == serving_snssai.sst
    &&& plmn_same(mapping.serving_plmn_id, serving_plmn)
    &&& plmn_same(mapping.home_plmn_id, home_plmn)
    &&& snssai_same(serving_snssai, mapping.serving_snssai)
}

/// The mapping applies, and its validity area (if it lists one) holds the TAI.
pub open spec fn mapping_applies_in_tai(
    mapping: SnssaiMapping,
    serving_snssai: Snssai,
    serving_plmn: PlmnId,
    home_plmn: PlmnId,
    tai: Tai,
) -> bool {
    mapping_applies(mapping, serving_snssai, serving_plmn, home_plmn) && tai_list_admits(
        mapping.validity_area,
        tai,
    )
}

/// The home S-NSSAI of the first mapping record that satisfies `applies`.
pub open spec fn first_mapped(mappings: Seq<SnssaiMapping>, applies: spec_fn(SnssaiMapping) -> bool) -> Option<Snssai>
    decreases mappings.len(),
{
    if mappings.len() == 0 {
        None
    } else if applies(mappings[0]) {
        Some(mappings[0].home_snssai)
    } else {
        first_mapped(mappings.drop_first(), applies)
    }
}

pub open spec fn mapped_home_snssai(
    mappings: Seq<SnssaiMapping>,
    serving_snssai: Snssai,
    serving_plmn: PlmnId,
    home_plmn: PlmnId,
) -> Option<Snssai> {
    first_mapped(mappings, |m: SnssaiMapping| mapping_applies(m, serving_snssai, serving_plmn, home_plmn))
}

pub open spec fn mapped_home_snssai_in_tai(
    mappings: Seq<SnssaiMapping>,
    serving_snssai: Snssai,
    serving_plmn: PlmnId,
    home_plmn: PlmnId,
    tai: Tai,
) -> Option<Snssai> {
    first_mapped(
        mappings,
        |m: SnssaiMapping| mapping_applies_in_tai(m, serving_snssai, serving_plmn, home_plmn, tai),
    )
}

/// Scanning past records that do not apply leaves the answer unchanged.
proof fn lemma_first_mapped_skip(
    mappings: Seq<SnssaiMapping>,
    applies: spec_fn(SnssaiMapping) -> bool,
    i: int,
)
    requires
        0 <= i <= mappings.len(),
        forall|j: int| 0 <= j < i ==> !applies(#[trigger] mappings[j]),
    ensures
        first_mapped(mappings, applies) == first_mapped(mappings.skip(i), applies),
    decreases i,
{
    if i > 0 {
        assert(!applies(mappings[0]));
        lemma_first_mapped_skip(mappings.drop_first(), applies, i - 1);
        assert(mappings.drop_first().skip(i - 1) =~= mappings.skip(i));
    } else {
        assert(mappings.skip(0) =~= mappings);
    }
}

fn mapping_applies_exec(
    mapping: &SnssaiMapping,
    serving_snssai: &Snssai,
    serving_plmn: &PlmnId,
    home_plmn: &PlmnId,
) -> (r: bool)
    ensures
        r == mapping_applies(*mapping, *serving_snssai, *serving_plmn, *home_plmn),
{
    mapping.serving_snssai.sst == serving_snssai.sst && plmn_eq(&mapping.serving_plmn_id, serving_plmn)
        && plmn_eq(&mapping.home_plmn_id, home_plmn) && snssai_eq(
        serving_snssai,
        &mapping.serving_snssai,
    )
}

/// The home S-NSSAI that the serving S-NSSAI maps to between the two PLMNs:
/// that of the first mapping record that applies.
pub fn map_snssai(
    serving_snssai: &Snssai,
    serving_plmn: &PlmnId,
    home_plmn: &PlmnId,
    store: &NssfStore,
) -> (r: Option<Snssai>)
    ensures
        r == mapped_home_snssai(store.snssai_mappings@, *serving_snssai, *serving_plmn, *home_plmn),
{
    let mappings = &store.snssai_mappings;
    let ghost applies = |m: SnssaiMapping|
        mapping_applies(m, *serving_snssai, *serving_plmn, *home_plmn);
    let mut i: usize = 0;
    while i < mappings.len()
        invariant
            mappings == &store.snssai_mappings,
            i <= mappings@.len(),
            applies == (|m: SnssaiMapping|
                mapping_applies(m, *serving_snssai, *serving_plmn, *home_plmn)),
            forall|j: int| 0 <= j < i ==> !applies(#[trigger] mappings@[j]),
        decreases mappings.len() - i,
    {
        if mapping_applies_exec(&mappings[i], serving_snssai, serving_plmn, home_plmn) {
            proof {
                lemma_first_mapped_skip(mappings@, applies, i as int);
            }
            return Some(mappings[i].home_snssai.copy());
        }
        i = i + 1;
    }
    proof {
        lemma_first_mapped_skip(mappings@, applies, i as int);
    }
    None
}

/// As `map_snssai`, counting only the records whose validity area holds the TAI.
pub fn map_snssai_with_tai(
    serving_snssai: &Snssai,
    serving_plmn: &PlmnId,
    home_plmn: &PlmnId,
    current_tai: &Tai,
    store: &NssfStore,
) -> (r: Option<Snssai>)
    ensures
        r == mapped_home_snssai_in_tai(
            store.snssai_mappings@,
            *serving_snssai,
            *serving_plmn,
            *home_plmn,
            *current_tai,
        ),
{
    let mappings = &store.snssai_mappings;
    let ghost applies = |m: SnssaiMapping|
        mapping_applies_in_tai(m, *serving_snssai, *serving_plmn, *home_plmn, *current_tai);
    let mut i: usize = 0;
    while i < mappings.len()
        invariant
            mappings == &store.snssai_mappings,
            i <= mappings@.len(),
            applies == (|m: SnssaiMapping|
                mapping_applies_in_tai(m, *serving_snssai, *serving_plmn, *home_plmn, *current_tai)),
            forall|j: int| 0 <= j < i ==> !applies(#[trigger] mappings@[j]),
        decreases mappings.len() - i,
    {
        if mapping_applies_exec(&mappings[i], serving_snssai, serving_plmn, home_plmn)
            && tai_list_admits_tai(&mappings[i].validity_area, current_tai) {
            proof {
                lemma_first_mapped_skip(mappings@, applies, i as int);
            }
            return Some(mappings[i].home_snssai.copy());
        }
        i = i + 1;
    }
    proof {
        lemma_first_mapped_skip(mappings@, applies, i as int);
    }
    None
}

/// Where a stricter condition finds a record, a weaker one finds one too.
proof fn lemma_first_mapped_weaker(
    mappings: Seq<SnssaiMapping>,
    strict: spec_fn(SnssaiMapping) -> bool,
    weak: spec_fn(SnssaiMapping) -> bool,
)
    requires
        forall|m: SnssaiMapping| #[trigger] strict(m) ==> weak(m),
        first_mapped(mappings, strict) is Some,
    ensures
        first_mapped(mappings, weak) is Some,
    decreases mappings.len(),
{
    if mappings.len() > 0 && !weak(mappings[0]) {
        assert(!strict(mappings[0]));
        lemma_first_mapped_weaker(mappings.drop_first(), strict, weak);
    }
}

/// A mapping that is found for the S-NSSAI in a tracking area is also found
/// without the tracking area: the validity area only narrows the records
/// that apply.
pub proof fn law_mapping_in_tai_is_found_without_tai(
    mappings: Seq<SnssaiMapping>,
    serving_snssai: Snssai,
    serving_plmn: PlmnId,
    home_plmn: PlmnId,
    tai: Tai,
)
    requires
        mapped_home_snssai_in_tai(mappings, serving_snssai, serving_plmn, home_plmn, tai) is Some,
    ensures
        mapped_home_snssai(mappings, serving_snssai, serving_plmn, home_plmn) is Some,
{
    lemma_first_mapped_weaker(
        mappings,
        |m: SnssaiMapping| mapping_applies_in_tai(m, serving_snssai, serving_plmn, home_plmn, tai),
        |m: SnssaiMapping| mapping_applies(m, serving_snssai, serving_plmn, home_plmn),
    );
}

/// What the first record satisfying a condition maps to is the home S-NSSAI
/// of a record that satisfies it.
proof fn lemma_first_mapped_source(mappings: Seq<SnssaiMapping>, applies: spec_fn(SnssaiMapping) -> bool, h: Snssai)
    requires
        first_mapped(mappings, applies) == Some(h),
    ensures
        exists|i: int| 0 <= i < mappings.len() && applies(#[trigger] mappings[i]) && mappings[i].home_snssai == h,
    decreases mappings.len(),
{
    if !applies(mappings[0]) {
        lemma_first_mapped_source(mappings.drop_first(), applies, h);
        let i = choose|i: int|
            0 <= i < mappings.drop_first().len() && applies(#[trigger] mappings.drop_first()[i])
                && mappings.drop_first()[i].home_snssai == h;
        assert(mappings[i + 1] == mappings.drop_first()[i]);
    } else {
        assert(applies(mappings[0]));
    }
}

/// A serving S-NSSAI maps (with or without a TAI) only to the home S-NSSAI
/// of a mapping record between exactly the given serving and home PLMNs whose
/// serving S-NSSAI denotes the same slice; with a TAI, the record's validity
/// area also admits the TAI.
pub proof fn law_mapping_comes_from_a_record_between_the_plmns(
    mappings: Seq<SnssaiMapping>,
    serving_snssai: Snssai,
    serving_plmn: PlmnId,
    home_plmn: PlmnId,
    tai: Tai,
    h: Snssai,
)
    ensures
        mapped_home_snssai(mappings, serving_snssai, serving_plmn, home_plmn) == Some(h) ==> exists|i: int| {
            &&& 0 <= i < mappings.len()
            &&& (#[trigger] mappings[i]).home_snssai == h
            &&& plmn_same(mappings[i].home_plmn_id, home_plmn)
            &&& plmn_same(mappings[i].serving_plmn_id, serving_plmn)
            &&& snssai_same(serving_snssai, mappings[i].serving_snssai)
        },
        mapped_home_snssai_in_tai(mappings, serving_snssai, serving_plmn, home_plmn, tai) == Some(h) ==> exists|i: int| {
            &&& 0 <= i < mappings.len()
            &&& (#[trigger] mappings[i]).home_snssai == h
            &&& plmn_same(mappings[i].home_plmn_id, home_plmn)
            &&& plmn_same(mappings[i].serving_plmn_id, serving_plmn)
            &&& snssai_same(serving_snssai, mappings[i].serving_snssai)
            &&& tai_list_admits(mappings[i].validity_area, tai)
        },
{
    let plain = |m: SnssaiMapping| mapping_applies(m, serving_snssai, serving_plmn, home_plmn);
    let in_tai = |m: SnssaiMapping| mapping_applies_in_tai(m, serving_snssai, serving_plmn, home_plmn, tai);
    if mapped_home_snssai(mappings, serving_snssai, serving_plmn, home_plmn) == Some(h) {
        lemma_first_mapped_source(mappings, plain, h);
    }
    if mapped_home_snssai_in_tai(mappings, serving_snssai, serving_plmn, home_plmn, tai) == Some(h) {
        lemma_first_mapped_source(mappings, in_tai, h);
    }
}

} // verus!
