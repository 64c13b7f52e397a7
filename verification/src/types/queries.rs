//! The filters that the configuration API accepts in its query strings, and
//! the conditions on stored fields that each stands for.
use vstd::prelude::*;

verus! {

/// A value that a stored field must equal.
#[derive(Debug, Clone)]
pub enum FilterValue {
    Int(i32),
    Text(String),
    Flag(bool),
}

/// The condition that the field (a dotted path) equals the value.
pub struct FilterTerm {
    pub field: String,
    pub value: FilterValue,
}

/// The conditions as (field, value) pairs.
pub open spec fn terms_view(terms: Seq<FilterTerm>) -> Seq<(Seq<char>, FilterValue)> {
    terms.map_values(|t: FilterTerm| (t.field@, t.value))
}

/// The condition on a text field, if a value is given.
pub open spec fn text_term(field: Seq<char>, value: Option<String>) -> Seq<(Seq<char>, FilterValue)> {
    match value {
        Some(v) => seq![(field, FilterValue::Text(v))],
        None => Seq::empty(),
    }
}

/// The condition on an SST field, if a value is given.
pub open spec fn sst_term(field: Seq<char>, value: Option<u8>) -> Seq<(Seq<char>, FilterValue)> {
    match value {
        Some(v) => seq![(field, FilterValue::Int(v as i32))],
        None => Seq::empty(),
    }
}

/// The condition on a flag field, if a value is given.
pub open spec fn flag_term(field: Seq<char>, value: Option<bool>) -> Seq<(Seq<char>, FilterValue)> {
    match value {
        Some(v) => seq![(field, FilterValue::Flag(v))],
        None => Seq::empty(),
    }
}

fn push_text(terms: &mut Vec<FilterTerm>, field: &str, value: &Option<String>)
    ensures
        terms_view(final(terms)@) == terms_view(old(terms)@) + text_term(field@, *value),
{
    if let Some(v) = value {
        terms.push(FilterTerm { field: field.to_owned(), value: FilterValue::Text(v.clone()) });
    }
    assert(terms_view(terms@) =~= terms_view(old(terms)@) + text_term(field@, *value));
}

fn push_sst(terms: &mut Vec<FilterTerm>, field: &str, value: Option<u8>)
    ensures
        terms_view(final(terms)@) == terms_view(old(terms)@) + sst_term(field@, value),
{
    if let Some(v) = value {
        terms.push(FilterTerm { field: field.to_owned(), value: FilterValue::Int(v as i32) });
    }
    assert(terms_view(terms@) =~= terms_view(old(terms)@) + sst_term(field@, value));
}

fn push_flag(terms: &mut Vec<FilterTerm>, field: &str, value: Option<bool>)
    ensures
        terms_view(final(terms)@) == terms_view(old(terms)@) + flag_term(field@, value),
{
    if let Some(v) = value {
        terms.push(FilterTerm { field: field.to_owned(), value: FilterValue::Flag(v) });
    }
    assert(terms_view(terms@) =~= terms_view(old(terms)@) + flag_term(field@, value));
}

#[derive(Debug, Clone)]
pub struct AmfSetQuery {
    pub mcc: Option<String>,
    pub mnc: Option<String>,
}

#[derive(Debug, Clone)]
pub struct AmfServiceSetQuery {
    pub amf_set_id: Option<String>,
}

#[derive(Debug, Clone)]
pub struct AmfInstanceQuery {
    pub amf_set_id: Option<String>,
}

#[derive(Debug, Clone)]
pub struct SliceQuery {
    pub sst: Option<u8>,
    pub sd: Option<String>,
}

#[derive(Debug, Clone)]
pub struct NsagQuery {
    pub sst: Option<u8>,
    pub sd: Option<String>,
    pub mcc: Option<String>,
    pub mnc: Option<String>,
    pub enabled: Option<bool>,
}

#[derive(Debug, Clone)]
pub struct NsiQuery {
    pub sst: Option<u8>,
    pub sd: Option<String>,
    pub mcc: Option<String>,
    pub mnc: Option<String>,
}

#[derive(Debug, Clone)]
pub struct NssrgQuery {
    pub sst: Option<u8>,
    pub sd: Option<String>,
    pub mcc: Option<String>,
    pub mnc: Option<String>,
    pub enabled: Option<bool>,
}

#[derive(Debug, Clone)]
pub struct PolicyQuery {
    pub sst: Option<u8>,
    pub sd: Option<String>,
    pub mcc: Option<String>,
    pub mnc: Option<String>,
    pub enabled: Option<bool>,
}

#[derive(Debug, Clone)]
pub struct SnssaiMappingQuery {
    pub serving_sst: Option<u8>,
    pub serving_sd: Option<String>,
    pub home_sst: Option<u8>,
    pub home_sd: Option<String>,
    pub serving_mcc: Option<String>,
    pub serving_mnc: Option<String>,
    pub home_mcc: Option<String>,
    pub home_mnc: Option<String>,
}

#[derive(Debug, Clone)]
pub struct SubscriptionQuery {
    pub supi: Option<String>,
    pub mcc: Option<String>,
    pub mnc: Option<String>,
}

impl AmfSetQuery {
    /// Both of MCC and MNC, or no condition.
    pub fn filter(&self) -> (r: Vec<FilterTerm>)
        ensures
            terms_view(r@) == if self.mcc is Some && self.mnc is Some {
                text_term("plmnId.mcc"@, self.mcc) + text_term("plmnId.mnc"@, self.mnc)
            } else {
                Seq::empty()
            },
    {
        let mut terms: Vec<FilterTerm> = Vec::new();
        if self.mcc.is_some() && self.mnc.is_some() {
            push_text(&mut terms, "plmnId.mcc", &self.mcc);
            push_text(&mut terms, "plmnId.mnc", &self.mnc);
        }
        assert(terms_view(Seq::<FilterTerm>::empty()) =~= Seq::empty());
        terms
    }
}

impl AmfServiceSetQuery {
    pub fn filter(&self) -> (r: Vec<FilterTerm>)
        ensures
            terms_view(r@) == text_term("amfSetId"@, self.amf_set_id),
    {
        let mut terms: Vec<FilterTerm> = Vec::new();
        assert(terms_view(terms@) =~= Seq::empty());
        push_text(&mut terms, "amfSetId", &self.amf_set_id);
        terms
    }
}

impl AmfInstanceQuery {
    pub fn filter(&self) -> (r: Vec<FilterTerm>)
        ensures
            terms_view(r@) == text_term("amfSetId"@, self.amf_set_id),
    {
        let mut terms: Vec<FilterTerm> = Vec::new();
        assert(terms_view(terms@) =~= Seq::empty());
        push_text(&mut terms, "amfSetId", &self.amf_set_id);
        terms
    }
}

impl SliceQuery {
    /// The SST, with the SD where one is given; an SD alone is no condition.
    pub fn filter(&self) -> (r: Vec<FilterTerm>)
        ensures
            terms_view(r@) == if self.sst is Some {
                sst_term("snssai.sst"@, self.sst) + text_term("snssai.sd"@, self.sd)
            } else {
                Seq::empty()
            },
    {
        let mut terms: Vec<FilterTerm> = Vec::new();
        assert(terms_view(terms@) =~= Seq::empty());
        if self.sst.is_some() {
            push_sst(&mut terms, "snssai.sst", self.sst);
            push_text(&mut terms, "snssai.sd", &self.sd);
        }
        terms
    }
}

impl NsiQuery {
    /// SST, MCC and MNC together, with the SD where one is given; otherwise no condition.
    pub fn filter(&self) -> (r: Vec<FilterTerm>)
        ensures
            terms_view(r@) == if self.sst is Some && self.mcc is Some && self.mnc is Some {
                sst_term("snssai.sst"@, self.sst) + text_term("plmnId.mcc"@, self.mcc) + text_term(
                    "plmnId.mnc"@,
                    self.mnc,
                ) + text_term("snssai.sd"@, self.sd)
            } else {
                Seq::empty()
            },
    {
        let mut terms: Vec<FilterTerm> = Vec::new();
        assert(terms_view(terms@) =~= Seq::empty());
        if self.sst.is_some() && self.mcc.is_some() && self.mnc.is_some() {
            push_sst(&mut terms, "snssai.sst", self.sst);
            push_text(&mut terms, "plmnId.mcc", &self.mcc);
            push_text(&mut terms, "plmnId.mnc", &self.mnc);
            push_text(&mut terms, "snssai.sd", &self.sd);
        }
        terms
    }
}

/// The conditions of a group query (NSAG or NSSRG): each value given.
pub open spec fn group_terms(
    sst: Option<u8>,
    sd: Option<String>,
    mcc: Option<String>,
    mnc: Option<String>,
    enabled: Option<bool>,
) -> Seq<(Seq<char>, FilterValue)> {
    sst_term("snssaiList.sst"@, sst) + text_term("snssaiList.sd"@, sd) + text_term("plmnId.mcc"@, mcc)
        + text_term("plmnId.mnc"@, mnc) + flag_term("enabled"@, enabled)
}

fn group_filter(
    sst: Option<u8>,
    sd: &Option<String>,
    mcc: &Option<String>,
    mnc: &Option<String>,
    enabled: Option<bool>,
) -> (r: Vec<FilterTerm>)
    ensures
        terms_view(r@) == group_terms(sst, *sd, *mcc, *mnc, enabled),
{
    let mut terms: Vec<FilterTerm> = Vec::new();
    assert(terms_view(terms@) =~= Seq::empty());
    push_sst(&mut terms, "snssaiList.sst", sst);
    push_text(&mut terms, "snssaiList.sd", sd);
    push_text(&mut terms, "plmnId.mcc", mcc);
    push_text(&mut terms, "plmnId.mnc", mnc);
    push_flag(&mut terms, "enabled", enabled);
    terms
}

impl NsagQuery {
    pub fn filter(&self) -> (r: Vec<FilterTerm>)
        ensures
            terms_view(r@) == group_terms(self.sst, self.sd, self.mcc, self.mnc, self.enabled),
    {
        group_filter(self.sst, &self.sd, &self.mcc, &self.mnc, self.enabled)
    }
}

impl NssrgQuery {
    pub fn filter(&self) -> (r: Vec<FilterTerm>)
        ensures
            terms_view(r@) == group_terms(self.sst, self.sd, self.mcc, self.mnc, self.enabled),
    {
        group_filter(self.sst, &self.sd, &self.mcc, &self.mnc, self.enabled)
    }
}

impl PolicyQuery {
    pub fn filter(&self) -> (r: Vec<FilterTerm>)
        ensures
            terms_view(r@) == sst_term("snssai.sst"@, self.sst) + text_term("snssai.sd"@, self.sd)
                + text_term("plmnId.mcc"@, self.mcc) + text_term("plmnId.mnc"@, self.mnc) + flag_term(
                "enabled"@,
                self.enabled,
            ),
    {
        let mut terms: Vec<FilterTerm> = Vec::new();
        assert(terms_view(terms@) =~= Seq::empty());
        push_sst(&mut terms, "snssai.sst", self.sst);
        push_text(&mut terms, "snssai.sd", &self.sd);
        push_text(&mut terms, "plmnId.mcc", &self.mcc);
        push_text(&mut terms, "plmnId.mnc", &self.mnc);
        push_flag(&mut terms, "enabled", self.enabled);
        terms
    }
}

impl SnssaiMappingQuery {
    pub fn filter(&self) -> (r: Vec<FilterTerm>)
        ensures
            terms_view(r@) == sst_term("servingSnssai.sst"@, self.serving_sst) + text_term(
                "servingSnssai.sd"@,
                self.serving_sd,
            ) + sst_term("homeSnssai.sst"@, self.home_sst) + text_term("homeSnssai.sd"@, self.home_sd)
                + text_term("servingPlmnId.mcc"@, self.serving_mcc) + text_term(
                "servingPlmnId.mnc"@,
                self.serving_mnc,
            ) + text_term("homePlmnId.mcc"@, self.home_mcc) + text_term("homePlmnId.mnc"@, self.home_mnc),
    {
        let mut terms: Vec<FilterTerm> = Vec::new();
        assert(terms_view(terms@) =~= Seq::empty());
        push_sst(&mut terms, "servingSnssai.sst", self.serving_sst);
        push_text(&mut terms, "servingSnssai.sd", &self.serving_sd);
        push_sst(&mut terms, "homeSnssai.sst", self.home_sst);
        push_text(&mut terms, "homeSnssai.sd", &self.home_sd);
        push_text(&mut terms, "servingPlmnId.mcc", &self.serving_mcc);
        push_text(&mut terms, "servingPlmnId.mnc", &self.serving_mnc);
        push_text(&mut terms, "homePlmnId.mcc", &self.home_mcc);
        push_text(&mut terms, "homePlmnId.mnc", &self.home_mnc);
        terms
    }
}

impl SubscriptionQuery {
    pub fn filter(&self) -> (r: Vec<FilterTerm>)
        ensures
            terms_view(r@) == text_term("supi"@, self.supi) + text_term("plmnId.mcc"@, self.mcc) + text_term(
                "plmnId.mnc"@,
                self.mnc,
            ),
    {
        let mut terms: Vec<FilterTerm> = Vec::new();
        assert(terms_view(terms@) =~= Seq::empty());
        push_text(&mut terms, "supi", &self.supi);
        push_text(&mut terms, "plmnId.mcc", &self.mcc);
        push_text(&mut terms, "plmnId.mnc", &self.mnc);
        terms
    }
}

} // verus!
