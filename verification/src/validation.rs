//! Validation of PLMN identities, S-NSSAIs, TAIs and SUPIs, and the
//! equality of S-NSSAIs that the rest of the service relies on.
use vstd::prelude::*;
use vstd::string::*;
use crate::errors::AppError;
use crate::text::{all_digits, all_hexdigits, lower, decimal, all_ascii_digits, all_ascii_hexdigits, str_eq, ascii_lowercase, append_decimal};
use crate::types::common::{PlmnId, Snssai, Tai};

verus! {

/// A PLMN identity is valid when its MCC is three decimal digits and its MNC
/// two or three.
pub open spec fn plmn_valid(plmn: PlmnId) -> bool {
    &&& plmn.mcc@.len() == 3
    &&& all_digits(plmn.mcc@)
    &&& 2 <= plmn.mnc@.len() <= 3
    &&& all_digits(plmn.mnc@)
}

/// An S-NSSAI is valid when its SD, if present, is six hexadecimal digits.
pub open spec fn snssai_valid(snssai: Snssai) -> bool {
    match snssai.sd {
        Some(sd) => sd@.len() == 6 && all_hexdigits(sd@),
        None => true,
    }
}

/// A TAI is valid when its PLMN is valid and its TAC is one to six
/// hexadecimal digits.
pub open spec fn tai_valid(tai: Tai) -> bool {
    &&& plmn_valid(tai.plmn_id)
    &&& 1 <= tai.tac@.len() <= 6
    &&& all_hexdigits(tai.tac@)
}

/// The MCCs (of the USA and Canada) whose networks use two-digit MNCs in IMSIs.
pub open spec fn two_digit_mnc_country(mcc: Seq<char>) -> bool {
    ||| mcc == "302"@
    ||| mcc == "310"@
    ||| mcc == "311"@
    ||| mcc == "312"@
    ||| mcc == "313"@
    ||| mcc == "314"@
    ||| mcc == "315"@
    ||| mcc == "316"@
}

/// The SUPI prefix of an IMSI.
pub open spec fn imsi_prefix() -> Seq<char> {
    "imsi-"@
}

/// An IMSI-based SUPI: `imsi-` followed by 10 to 15 decimal digits.
pub open spec fn supi_valid(supi: Seq<char>) -> bool {
    &&& supi.len() >= 5
    &&& supi.take(5) == imsi_prefix()
    &&& 10 <= supi.len() - 5 <= 15
    &&& all_digits(supi.skip(5))
}

/// The IMSI of a valid SUPI.
pub open spec fn supi_imsi(supi: Seq<char>) -> Seq<char> {
    supi.skip(5)
}

/// The MCC of a valid SUPI: the first three digits of the IMSI.
pub open spec fn supi_mcc(supi: Seq<char>) -> Seq<char> {
    supi_imsi(supi).take(3)
}

/// The MNC of a valid SUPI: two digits after the MCC in the countries that
/// use two-digit MNCs, three elsewhere.
pub open spec fn supi_mnc(supi: Seq<char>) -> Seq<char> {
    if two_digit_mnc_country(supi_mcc(supi)) {
        supi_imsi(supi).subrange(3, 5)
    } else {
        supi_imsi(supi).subrange(3, 6)
    }
}

/// The normalised form of an SD: ASCII lower case.
pub open spec fn normalized_sd(sd: Seq<char>) -> Seq<char> {
    lower(sd)
}

/// Two S-NSSAIs denote the same slice when their SSTs are equal and their SDs
/// are equal up to ASCII case; an absent SD equals the SD `000000`.
pub open spec fn snssai_same(a: Snssai, b: Snssai) -> bool {
    &&& a.sst == b.sst
    &&& match (a.sd, b.sd) {
        (None, None) => true,
        (Some(x), Some(y)) => normalized_sd(x@) == normalized_sd(y@),
        (Some(x), None) => normalized_sd(x@) == "000000"@,
        (None, Some(y)) => normalized_sd(y@) == "000000"@,
    }
}

/// The most S-NSSAIs a requested NSSAI may hold.
pub open spec fn max_requested_snssais() -> int {
    8
}

/// Whether `list[i]` and `list[j]` with `i < j` denote the same slice.
pub open spec fn has_duplicate(list: Seq<Snssai>) -> bool {
    exists|i: int, j: int| 0 <= i < j < list.len() && snssai_same(list[i], list[j])
}

/// Whether some entry of `list` is invalid.
pub open spec fn has_invalid(list: Seq<Snssai>) -> bool {
    exists|i: int| 0 <= i < list.len() && !snssai_valid(#[trigger] list[i])
}

/// The first invalid entry of `list`, where there is one.
pub open spec fn first_invalid(list: Seq<Snssai>, i: int) -> bool {
    &&& 0 <= i < list.len()
    &&& !snssai_valid(list[i])
    &&& forall|k: int| 0 <= k < i ==> snssai_valid(#[trigger] list[k])
}

/// `(i, j)` is the first duplicate pair of `list` in the order in which pairs
/// are examined: by `i`, then by `j`.
pub open spec fn first_duplicate(list: Seq<Snssai>, i: int, j: int) -> bool {
    &&& 0 <= i < j < list.len()
    &&& snssai_same(list[i], list[j])
    &&& forall|a: int, b: int|
        0 <= a < b < list.len() && (a < i || (a == i && b < j)) ==> !snssai_same(
            #[trigger] list[a],
            #[trigger] list[b],
        )
}

pub fn validate_plmn(plmn: &PlmnId) -> (b: bool)
    ensures
        b == plmn_valid(*plmn),
{
    let mcc = plmn.mcc.as_str();
    let mnc = plmn.mnc.as_str();
    if mcc.unicode_len() != 3 || !all_ascii_digits(mcc) {
        return false;
    }
    let mnc_len = mnc.unicode_len();
    if !(2 <= mnc_len && mnc_len <= 3) || !all_ascii_digits(mnc) {
        return false;
    }
    true
}

pub fn validate_snssai(snssai: &Snssai) -> (b: bool)
    ensures
        b == snssai_valid(*snssai),
{
    match &snssai.sd {
        Some(sd) => {
            let sd = sd.as_str();
            if sd.unicode_len() != 6 || !all_ascii_hexdigits(sd) {
                return false;
            }
            true
        },
        None => true,
    }
}

pub fn validate_tai(tai: &Tai) -> (b: bool)
    ensures
        b == tai_valid(*tai),
{
    if !validate_plmn(&tai.plmn_id) {
        return false;
    }
    let tac = tai.tac.as_str();
    let n = tac.unicode_len();
    if n == 0 || n > 6 {
        return false;
    }
    if !all_ascii_hexdigits(tac) {
        return false;
    }
    true
}

/// Whether the MCC belongs to a country whose IMSIs carry two-digit MNCs.
fn is_two_digit_mnc(mcc: &str) -> (b: bool)
    ensures
        b == two_digit_mnc_country(mcc@),
{
    str_eq(mcc, "302") || str_eq(mcc, "310") || str_eq(mcc, "311") || str_eq(mcc, "312")
        || str_eq(mcc, "313") || str_eq(mcc, "314") || str_eq(mcc, "315") || str_eq(
        mcc,
        "316",
    )
}

/// Splits an IMSI-based SUPI into its IMSI and the PLMN that the IMSI names.
pub fn validate_supi(supi: &str) -> (r: Option<(String, PlmnId)>)
    ensures
        r is Some <==> supi_valid(supi@),
        r matches Some((imsi, plmn)) ==> {
            &&& imsi@ == supi_imsi(supi@)
            &&& plmn.mcc@ == supi_mcc(supi@)
            &&& plmn.mnc@ == supi_mnc(supi@)
        },
{
    let n = supi.unicode_len();
    if n < 5 {
        return None;
    }
    let prefix = supi.substring_char(0, 5);
    if !str_eq(prefix, "imsi-") {
        return None;
    }
    let imsi = supi.substring_char(5, n);
    let len = n - 5;
    if len < 10 || len > 15 {
        return None;
    }
    if !all_ascii_digits(imsi) {
        return None;
    }
    let mcc = imsi.substring_char(0, 3);
    let mnc = if is_two_digit_mnc(mcc) {
        imsi.substring_char(3, 5)
    } else {
        imsi.substring_char(3, 6)
    };
    let plmn = PlmnId { mcc: mcc.to_owned(), mnc: mnc.to_owned() };
    Some((imsi.to_owned(), plmn))
}

/// The message of the error with which a requested NSSAI is refused, if it is.
pub open spec fn snssai_list_error(list: Seq<Snssai>) -> Option<Seq<char>> {
    if list.len() > max_requested_snssais() {
        Some("S-NSSAI list exceeds maximum of 8 entries"@)
    } else if has_invalid(list) {
        let i = choose|i: int| first_invalid(list, i);
        Some("Invalid S-NSSAI at index "@ + decimal(i as nat))
    } else if has_duplicate(list) {
        let (i, j) = choose|i: int, j: int| first_duplicate(list, i, j);
        Some("Duplicate S-NSSAI at indices "@ + decimal(i as nat) + " and "@ + decimal(j as nat))
    } else {
        None
    }
}

/// Validates a requested NSSAI: at most eight entries, each valid, no two
/// denoting the same slice. A refusal names the first offending index.
pub fn validate_snssai_list(list: &[Snssai]) -> (r: Result<(), AppError>)
    ensures
        r is Ok <==> snssai_list_error(list@) is None,
        r is Err ==> (r->Err_0 is BadRequest) && snssai_list_error(list@) == Some(
            r->Err_0->BadRequest_0@,
        ),
{
    if list.len() > 8 {
        return Err(AppError::BadRequest("S-NSSAI list exceeds maximum of 8 entries".to_owned()));
    }
    let mut i: usize = 0;
    while i < list.len()
        invariant
            i <= list@.len() <= max_requested_snssais(),
            forall|k: int| 0 <= k < i ==> snssai_valid(#[trigger] list@[k]),
        decreases list.len() - i,
    {
        if !validate_snssai(&list[i]) {
            let mut msg = "Invalid S-NSSAI at index ".to_owned();
            append_decimal(&mut msg, i);
            assert(first_invalid(list@, i as int));
            assert forall|k: int| first_invalid(list@, k) implies k == i as int by {
                if k < i {
                    assert(snssai_valid(list@[k]));
                } else if k > i {
                    assert(snssai_valid(list@[i as int]));
                }
            }
            assert(has_invalid(list@));
            return Err(AppError::BadRequest(msg));
        }
        i = i + 1;
    }
    assert(!has_invalid(list@));
    let mut i: usize = 0;
    while i < list.len()
        invariant
            i <= list@.len() <= max_requested_snssais(),
            !has_invalid(list@),
            forall|a: int, b: int|
                0 <= a < b < list@.len() && a < i ==> !snssai_same(
                    #[trigger] list@[a],
                    #[trigger] list@[b],
                ),
        decreases list.len() - i,
    {
        let mut j: usize = i + 1;
        while j < list.len()
            invariant
                i < list@.len() <= max_requested_snssais(),
                i + 1 <= j <= list@.len(),
                !has_invalid(list@),
                forall|a: int, b: int|
                    0 <= a < b < list@.len() && (a < i || (a == i && b < j)) ==> !snssai_same(
                        #[trigger] list@[a],
                        #[trigger] list@[b],
                    ),
            decreases list.len() - j,
        {
            if snssai_eq(&list[i], &list[j]) {
                let mut msg = "Duplicate S-NSSAI at indices ".to_owned();
                append_decimal(&mut msg, i);
                msg.append(" and ");
                append_decimal(&mut msg, j);
                assert(first_duplicate(list@, i as int, j as int));
                assert forall|a: int, b: int| first_duplicate(list@, a, b) implies a == i as int
                    && b == j as int by {
                    if a < i || (a == i && b < j) {
                        assert(!snssai_same(list@[a], list@[b]));
                    } else if a > i || (a == i && b > j) {
                        assert(!snssai_same(list@[i as int], list@[j as int]));
                    }
                }
                assert(has_duplicate(list@));
                return Err(AppError::BadRequest(msg));
            }
            j = j + 1;
        }
        i = i + 1;
    }
    Ok(())
}

/// Whether two S-NSSAIs denote the same slice.
pub fn snssai_eq(a: &Snssai, b: &Snssai) -> (r: bool)
    ensures
        r == snssai_same(*a, *b),
{
    if a.sst != b.sst {
        return false;
    }
    match (&a.sd, &b.sd) {
        (None, None) => true,
        (Some(sd_a), Some(sd_b)) => normalize_sd(sd_a.as_str()) == normalize_sd(sd_b.as_str()),
        (Some(sd), None) => str_eq(normalize_sd(sd.as_str()).as_str(), "000000"),
        (None, Some(sd)) => str_eq(normalize_sd(sd.as_str()).as_str(), "000000"),
    }
}

/// The SD in the form in which SDs are compared: ASCII lower case.
fn normalize_sd(sd: &str) -> (r: String)
    ensures
        r@ == normalized_sd(sd@),
{
    ascii_lowercase(sd)
}

/// Denoting the same slice is an equivalence: every S-NSSAI denotes the same
/// slice as itself, in either order, and through a third.
pub proof fn law_snssai_same_is_equivalence(a: Snssai, b: Snssai, c: Snssai)
    ensures
        snssai_same(a, a),
        snssai_same(a, b) == snssai_same(b, a),
        snssai_same(a, b) && snssai_same(b, c) ==> snssai_same(a, c),
{
}

/// An accepted requested NSSAI has at most eight entries, each valid, no two
/// of which denote the same slice; and every such list is accepted.
pub proof fn law_accepted_snssai_lists(list: Seq<Snssai>)
    ensures
        snssai_list_error(list) is None <==> {
            &&& list.len() <= 8
            &&& forall|i: int| 0 <= i < list.len() ==> snssai_valid(#[trigger] list[i])
            &&& forall|i: int, j: int|
                0 <= i < j < list.len() ==> !snssai_same(#[trigger] list[i], #[trigger] list[j])
        },
{
}

/// Why a requested NSSAI is refused (too long, an invalid entry, two entries
/// for the same slice), if it is; a request without one is not refused.
pub open spec fn requested_nssai_error(requested: Option<Vec<Snssai>>) -> Option<Seq<char>> {
    match requested {
        Some(l) => snssai_list_error(l@),
        None => None,
    }
}

/// Validates the requested NSSAI of a selection request, if it has one.
pub fn validate_requested_nssai(requested: &Option<Vec<Snssai>>) -> (r: Result<(), AppError>)
    ensures
        r is Ok <==> requested_nssai_error(*requested) is None,
        requested_nssai_error(*requested) matches Some(m) ==> (r matches Err(AppError::BadRequest(t)) && t@ == m),
{
    match requested {
        Some(l) => validate_snssai_list(l.as_slice()),
        None => Ok(()),
    }
}

} // verus!
