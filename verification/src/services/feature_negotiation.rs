//! Negotiation of the `supportedFeatures` bit string (3GPP TS 29.500 §6.6):
//! a string of hexadecimal digits, least significant digit last, in which
//! bit `i` announces feature `i`.
use vstd::prelude::*;
use crate::types::common::opt_view;
use vstd::string::*;

verus! {

#[derive(Debug, Clone, Copy, PartialEq, Eq)]
pub enum NssfFeature {
    Nssrg,
    Nsag,
    EnhancedRoaming,
    SlicePriority,
    DynamicMapping,
}

impl NssfFeature {
    /// The bit that announces the feature.
    pub open spec fn bit(self) -> int {
        match self {
            NssfFeature::Nssrg => 0,
            NssfFeature::Nsag => 1,
            NssfFeature::EnhancedRoaming => 2,
            NssfFeature::SlicePriority => 3,
            NssfFeature::DynamicMapping => 4,
        }
    }

    pub fn index(&self) -> (r: usize)
        ensures
            r == self.bit(),
    {
        match self {
            NssfFeature::Nssrg => 0,
            NssfFeature::Nsag => 1,
            NssfFeature::EnhancedRoaming => 2,
            NssfFeature::SlicePriority => 3,
            NssfFeature::DynamicMapping => 4,
        }
    }
}

/// The features that this NSSF implements: enhanced roaming, slice priority
/// and dynamic mapping; NSSRG and NSAG are not offered.
pub open spec fn nssf_supports(bit: int) -> bool {
    bit == 2 || bit == 3 || bit == 4
}

/// The value of a lower-case hexadecimal digit byte; any other byte counts as zero.
pub open spec fn nibble(b: u8) -> int {
    if 48 <= b <= 57 {
        b - 48
    } else if 97 <= b <= 102 {
        b - 87
    } else {
        0
    }
}

/// Bit `j` (0 to 3) of a digit value.
pub open spec fn bit_of(v: int, j: int) -> bool {
    if j == 0 {
        v % 2 == 1
    } else if j == 1 {
        (v / 2) % 2 == 1
    } else if j == 2 {
        (v / 4) % 2 == 1
    } else {
        (v / 8) % 2 == 1
    }
}

/// The bits that a feature string announces, least significant first: bit
/// `i` is bit `i % 4` of the digit `i / 4` places from the end.
pub open spec fn feature_bits(bytes: Seq<u8>) -> Seq<bool> {
    Seq::new(
        (4 * bytes.len()) as nat,
        |i: int| bit_of(nibble(bytes[bytes.len() - 1 - i / 4]), i % 4),
    )
}

/// ASCII lower case of a byte.
pub open spec fn lower_byte(b: u8) -> u8 {
    if 65 <= b <= 90 {
        (b + 32) as u8
    } else {
        b
    }
}

/// The bytes of a string after `to_ascii_lowercase`.
pub open spec fn lower_bytes(s: Seq<u8>) -> Seq<u8> {
    Seq::new(s.len(), |i: int| lower_byte(s[i]))
}

pub open spec fn is_hex_byte(b: u8) -> bool {
    (48 <= b <= 57) || (97 <= b <= 102) || (65 <= b <= 70)
}

pub open spec fn all_hex_bytes(s: Seq<u8>) -> bool {
    forall|i: int| 0 <= i < s.len() ==> is_hex_byte(#[trigger] s[i])
}

/// Bit `i` of a bit vector, where bits past its end are clear.
pub open spec fn bit_at(bits: Seq<bool>, i: int) -> bool {
    0 <= i < bits.len() && bits[i]
}

/// The value of the `k`-th group of four bits.
pub open spec fn chunk_value(bits: Seq<bool>, k: int) -> int {
    (if bit_at(bits, 4 * k) { 1int } else { 0int }) + (if bit_at(bits, 4 * k + 1) {
        2int
    } else {
        0int
    }) + (if bit_at(bits, 4 * k + 2) { 4int } else { 0int }) + (if bit_at(bits, 4 * k + 3) {
        8int
    } else {
        0int
    })
}

/// The byte of a lower-case hexadecimal digit of value `v` (0 to 15).
pub open spec fn hex_byte(v: int) -> u8 {
    if v < 10 {
        (48 + v) as u8
    } else {
        (97 + v - 10) as u8
    }
}

/// The digits of a bit vector, least significant first, one per group of four bits.
pub open spec fn chunk_digits(bits: Seq<bool>) -> Seq<u8> {
    Seq::new(((bits.len() + 3) / 4) as nat, |k: int| hex_byte(chunk_value(bits, k)))
}

/// The digits without the zeros at the most significant end, keeping at least one digit.
pub open spec fn drop_high_zeros(d: Seq<u8>) -> Seq<u8>
    decreases d.len(),
{
    if d.len() > 1 && d.last() == 48u8 {
        drop_high_zeros(d.drop_last())
    } else {
        d
    }
}

pub open spec fn ascii_chars(b: Seq<u8>) -> Seq<char> {
    Seq::new(b.len(), |i: int| b[i] as char)
}

/// The bytes of the feature string of a bit vector: its lower-case
/// hexadecimal digits, most significant first, without leading zeros.
pub open spec fn feature_string_bytes(bits: Seq<bool>) -> Seq<u8> {
    drop_high_zeros(chunk_digits(bits)).reverse()
}

/// The feature string of a bit vector; none for an empty vector.
pub open spec fn feature_string(bits: Seq<bool>) -> Option<Seq<char>> {
    if bits.len() == 0 {
        None
    } else {
        Some(ascii_chars(feature_string_bytes(bits)))
    }
}

/// The bit vector without its clear bits at the most significant end.
pub open spec fn trim_clear(bits: Seq<bool>) -> Seq<bool>
    decreases bits.len(),
{
    if bits.len() > 0 && !bits.last() {
        trim_clear(bits.drop_last())
    } else {
        bits
    }
}

/// The consumer's bits restricted to the features this NSSF supports.
pub open spec fn supported_bits(bits: Seq<bool>) -> Seq<bool> {
    Seq::new(bits.len(), |i: int| bits[i] && nssf_supports(i))
}

/// The features negotiated with a consumer that announced `consumer`: none
/// for an empty or malformed string; else the announced features that this
/// NSSF supports, as a feature string, or none when there are none.
pub open spec fn negotiated(consumer: Seq<u8>) -> Option<Seq<char>> {
    if consumer.len() == 0 || !all_hex_bytes(consumer) {
        None
    } else {
        let t = trim_clear(supported_bits(feature_bits(lower_bytes(consumer))));
        if t.len() == 0 {
            None
        } else {
            feature_string(t)
        }
    }
}

pub fn is_feature_supported_by_nssf(bit_index: usize) -> (b: bool)
    ensures
        b == nssf_supports(bit_index as int),
{
    bit_index == 2 || bit_index == 3 || bit_index == 4
}

fn nibble_exec(c: u8) -> (v: u8)
    ensures
        v == nibble(c),
        v < 16,
{
    if 48 <= c && c <= 57 {
        c - 48
    } else if 97 <= c && c <= 102 {
        c - 87
    } else {
        0
    }
}

/// The four bits of a hexadecimal digit byte, least significant first.
pub fn hex_char_to_bits(c: u8) -> (r: [bool; 4])
    ensures
        forall|j: int| 0 <= j < 4 ==> r@[j] == bit_of(nibble(c), j),
{
    let value = nibble_exec(c);
    [value % 2 == 1, (value / 2) % 2 == 1, (value / 4) % 2 == 1, (value / 8) % 2 == 1]
}

/// The lower-case hexadecimal digit of the first four bits (missing bits clear).
pub fn bits_to_hex_char(bits: &[bool]) -> (r: u8)
    ensures
        r == hex_byte(chunk_value(bits@, 0)),
{
    let mut value: u8 = 0;
    if bits.len() > 0 && bits[0] {
        value = value + 1;
    }
    if bits.len() > 1 && bits[1] {
        value = value + 2;
    }
    if bits.len() > 2 && bits[2] {
        value = value + 4;
    }
    if bits.len() > 3 && bits[3] {
        value = value + 8;
    }
    if value < 10 {
        48 + value
    } else {
        97 + (value - 10)
    }
}

/// The bits that the bytes of a feature string announce.
pub fn parse_feature_bytes(bytes: &[u8]) -> (bits: Vec<bool>)
    ensures
        bits@ == feature_bits(bytes@),
{
    let n = bytes.len();
    let mut bits: Vec<bool> = Vec::new();
    let mut k: usize = 0;
    while k < n
        invariant
            n == bytes@.len(),
            k <= n,
            bits@.len() == 4 * k,
            forall|i: int|
                0 <= i < 4 * k ==> bits@[i] == bit_of(nibble(bytes@[n - 1 - i / 4]), i % 4),
        decreases n - k,
    {
        let hex_bits = hex_char_to_bits(bytes[n - 1 - k]);
        bits.push(hex_bits[0]);
        bits.push(hex_bits[1]);
        bits.push(hex_bits[2]);
        bits.push(hex_bits[3]);
        k = k + 1;
        assert forall|i: int|
            0 <= i < 4 * k implies bits@[i] == bit_of(nibble(bytes@[n - 1 - i / 4]), i % 4) by {
            if i >= 4 * (k - 1) {
                assert(i / 4 == k - 1);
                assert(i % 4 == i - 4 * (k - 1));
            }
        }
    }
    assert(bits@ =~= feature_bits(bytes@));
    bits
}

/// The bits that a feature string announces.
pub fn parse_feature_string(features: &str) -> (bits: Vec<bool>)
    ensures
        bits@ == feature_bits(features.spec_bytes()),
{
    parse_feature_bytes(features.as_bytes())
}

/// The bytes of a string in ASCII lower case.
fn lowercase_bytes(s: &[u8]) -> (r: Vec<u8>)
    ensures
        r@ == lower_bytes(s@),
{
    let mut r: Vec<u8> = Vec::new();
    let mut i: usize = 0;
    while i < s.len()
        invariant
            i <= s@.len(),
            r@ == lower_bytes(s@).take(i as int),
        decreases s.len() - i,
    {
        let b = s[i];
        if 65 <= b && b <= 90 {
            r.push(b + 32);
        } else {
            r.push(b);
        }
        i = i + 1;
        assert(r@ =~= lower_bytes(s@).take(i as int));
    }
    assert(lower_bytes(s@).take(s@.len() as int) =~= lower_bytes(s@));
    r
}

fn push_hex_digit(s: &mut String, b: u8)
    requires
        (48 <= b <= 57) || (97 <= b <= 102),
    ensures
        final(s)@ == old(s)@.push(b as char),
{
    proof {
        reveal_strlit("0");
        reveal_strlit("1");
        reveal_strlit("2");
        reveal_strlit("3");
        reveal_strlit("4");
        reveal_strlit("5");
        reveal_strlit("6");
        reveal_strlit("7");
        reveal_strlit("8");
        reveal_strlit("9");
        reveal_strlit("a");
        reveal_strlit("b");
        reveal_strlit("c");
        reveal_strlit("d");
        reveal_strlit("e");
        reveal_strlit("f");
    }
    let ghost before = s@;
    match b {
        48 => s.append("0"),
        49 => s.append("1"),
        50 => s.append("2"),
        51 => s.append("3"),
        52 => s.append("4"),
        53 => s.append("5"),
        54 => s.append("6"),
        55 => s.append("7"),
        56 => s.append("8"),
        57 => s.append("9"),
        97 => s.append("a"),
        98 => s.append("b"),
        99 => s.append("c"),
        100 => s.append("d"),
        101 => s.append("e"),
        _ => s.append("f"),
    }
    assert(s@ =~= before.push(b as char));
}

proof fn lemma_chunk_of_subslice(bits: Seq<bool>, k: int)
    requires
        0 <= k,
        4 * k < bits.len(),
    ensures
        ({
            let hi = if 4 * k + 4 <= bits.len() { 4 * k + 4 } else { bits.len() as int };
            chunk_value(bits.subrange(4 * k, hi), 0) == chunk_value(bits, k)
        }),
{
}

proof fn lemma_hex_byte_range(v: int)
    requires
        0 <= v < 16,
    ensures
        (48 <= hex_byte(v) <= 57) || (97 <= hex_byte(v) <= 102),
        (hex_byte(v) == 48u8) == (v == 0),
{
}

/// The feature string of a bit vector.
pub fn create_feature_string(bits: &[bool]) -> (r: Option<String>)
    ensures
        match r {
            Some(s) => feature_string(bits@) == Some(s@),
            None => feature_string(bits@) is None,
        },
{
    if bits.len() == 0 {
        return None;
    }
    let n = bits.len();
    let chunks = n / 4 + if n % 4 == 0 { 0 } else { 1 };
    assert(chunks == (n + 3) / 4);
    let mut digits: Vec<u8> = Vec::new();
    let mut k: usize = 0;
    while k < chunks
        invariant
            n == bits@.len(),
            chunks == (n + 3) / 4,
            k <= chunks,
            digits@ == chunk_digits(bits@).take(k as int),
        decreases chunks - k,
    {
        let lo = 4 * k;
        let hi = if n - lo >= 4 { lo + 4 } else { n };
        proof {
            lemma_chunk_of_subslice(bits@, k as int);
        }
        let d = bits_to_hex_char(&bits[lo..hi]);
        digits.push(d);
        k = k + 1;
        assert(digits@ =~= chunk_digits(bits@).take(k as int));
    }
    assert(digits@ =~= chunk_digits(bits@));
    proof {
        assert forall|j: int| 0 <= j < digits@.len() implies (48 <= #[trigger] digits@[j] <= 57)
            || (97 <= digits@[j] <= 102) by {
            lemma_hex_byte_range(chunk_value(bits@, j));
        }
    }
    while digits.len() > 1 && digits[digits.len() - 1] == 48
        invariant
            digits@.len() >= 1,
            drop_high_zeros(digits@) == drop_high_zeros(chunk_digits(bits@)),
            forall|j: int|
                0 <= j < digits@.len() ==> (48 <= #[trigger] digits@[j] <= 57) || (97 <= digits@[j]
                    <= 102),
        decreases digits.len(),
    {
        let ghost before = digits@;
        digits.pop();
        assert(digits@ =~= before.drop_last());
    }
    assert(drop_high_zeros(digits@) == digits@);
    let mut s = String::new();
    let m = digits.len();
    let mut i: usize = 0;
    while i < m
        invariant
            m == digits@.len(),
            i <= m,
            s@ == ascii_chars(digits@.reverse()).take(i as int),
            forall|j: int|
                0 <= j < digits@.len() ==> (48 <= #[trigger] digits@[j] <= 57) || (97 <= digits@[j]
                    <= 102),
        decreases m - i,
    {
        push_hex_digit(&mut s, digits[m - 1 - i]);
        i = i + 1;
        assert(s@ =~= ascii_chars(digits@.reverse()).take(i as int));
    }
    assert(s@ =~= ascii_chars(digits@.reverse()));
    Some(s)
}

/// The text of an optional string.
pub open spec fn str_option_view(s: Option<&str>) -> Option<Seq<char>> {
    match s {
        Some(t) => Some(t@),
        None => None,
    }
}

/// The features negotiated with a consumer that announced `consumer`, if any.
pub open spec fn negotiated_for(consumer: Option<Seq<char>>) -> Option<Seq<char>> {
    match consumer {
        None => None,
        Some(c) => negotiated(vstd::utf8::encode_utf8(c)),
    }
}

/// Negotiates the features of an NF consumer against those of this NSSF.
pub fn negotiate_features(consumer_features: Option<&str>) -> (r: Option<String>)
    ensures
        opt_view(r) == negotiated_for(str_option_view(consumer_features)),
        match consumer_features {
            None => r is None,
            Some(c) => match r {
                Some(s) => negotiated(c.spec_bytes()) == Some(s@),
                None => negotiated(c.spec_bytes()) is None,
            },
        },
{
    let consumer = match consumer_features {
        Some(c) => c,
        None => return None,
    };
    let bytes = consumer.as_bytes();
    if bytes.len() == 0 {
        return None;
    }
    let mut i: usize = 0;
    while i < bytes.len()
        invariant
            consumer_features == Some(consumer),
            bytes@ == consumer.spec_bytes(),
            i <= bytes@.len(),
            forall|j: int| 0 <= j < i ==> is_hex_byte(#[trigger] bytes@[j]),
        decreases bytes.len() - i,
    {
        let b = bytes[i];
        if !((48 <= b && b <= 57) || (97 <= b && b <= 102) || (65 <= b && b <= 70)) {
            assert(!is_hex_byte(bytes@[i as int]));
            return None;
        }
        i = i + 1;
    }
    let lowered = lowercase_bytes(bytes);
    let consumer_bits = parse_feature_bytes(lowered.as_slice());
    let mut negotiated_bits: Vec<bool> = Vec::new();
    let mut k: usize = 0;
    while k < consumer_bits.len()
        invariant
            k <= consumer_bits@.len(),
            negotiated_bits@ == supported_bits(consumer_bits@).take(k as int),
        decreases consumer_bits.len() - k,
    {
        negotiated_bits.push(consumer_bits[k] && is_feature_supported_by_nssf(k));
        k = k + 1;
        assert(negotiated_bits@ =~= supported_bits(consumer_bits@).take(k as int));
    }
    assert(negotiated_bits@ =~= supported_bits(consumer_bits@));
    while negotiated_bits.len() > 0 && !negotiated_bits[negotiated_bits.len() - 1]
        invariant
            trim_clear(negotiated_bits@) == trim_clear(supported_bits(consumer_bits@)),
        decreases negotiated_bits.len(),
    {
        let ghost before = negotiated_bits@;
        negotiated_bits.pop();
        assert(negotiated_bits@ =~= before.drop_last());
    }
    assert(trim_clear(negotiated_bits@) == negotiated_bits@);
    if negotiated_bits.len() == 0 {
        return None;
    }
    create_feature_string(negotiated_bits.as_slice())
}

/// Whether a feature is among the negotiated ones.
pub fn is_feature_negotiated(negotiated_features: Option<&str>, feature: NssfFeature) -> (b: bool)
    ensures
        b == match negotiated_features {
            Some(f) => bit_at(feature_bits(lower_bytes(f.spec_bytes())), feature.bit()),
            None => false,
        },
{
    let features = match negotiated_features {
        Some(f) => f,
        None => return false,
    };
    let lowered = lowercase_bytes(features.as_bytes());
    let bits = parse_feature_bytes(lowered.as_slice());
    let index = feature.index();
    index < bits.len() && bits[index]
}

/// Whether every feature that `required` announces is announced by `negotiated`.
pub open spec fn features_cover(negotiated: Seq<u8>, required: Seq<u8>) -> bool {
    let q = feature_bits(lower_bytes(required));
    let n = feature_bits(lower_bytes(negotiated));
    forall|i: int| 0 <= i < q.len() && #[trigger] q[i] ==> bit_at(n, i)
}

/// Whether every required feature is among the negotiated ones; with no
/// requirement this holds, with no negotiated features it does not.
pub fn validate_required_features(
    negotiated_features: Option<&str>,
    required_features: Option<&str>,
) -> (b: bool)
    ensures
        required_features is None ==> b,
        (required_features is Some && negotiated_features is None) ==> !b,
        forall|n: &str, q: &str|
            negotiated_features == Some(n) && required_features == Some(q) ==> (b
                <==> features_cover(n.spec_bytes(), q.spec_bytes())),
{
    let required = match required_features {
        Some(q) => q,
        None => return true,
    };
    let negotiated = match negotiated_features {
        Some(n) => n,
        None => return false,
    };
    let negotiated_lower = lowercase_bytes(negotiated.as_bytes());
    let required_lower = lowercase_bytes(required.as_bytes());
    let negotiated_bits = parse_feature_bytes(negotiated_lower.as_slice());
    let required_bits = parse_feature_bytes(required_lower.as_slice());
    let mut i: usize = 0;
    while i < required_bits.len()
        invariant
            negotiated_features == Some(negotiated),
            required_features == Some(required),
            required_bits@ == feature_bits(lower_bytes(required.spec_bytes())),
            negotiated_bits@ == feature_bits(lower_bytes(negotiated.spec_bytes())),
            i <= required_bits@.len(),
            forall|j: int|
                0 <= j < i && #[trigger] required_bits@[j] ==> bit_at(negotiated_bits@, j),
        decreases required_bits.len() - i,
    {
        if required_bits[i] && !(i < negotiated_bits.len() && negotiated_bits[i]) {
            assert(feature_bits(lower_bytes(required.spec_bytes()))[i as int]);
            return false;
        }
        i = i + 1;
    }
    true
}

/// The bits before `k`-th digit's group determine that group's value.
proof fn lemma_chunk_bits(bits: Seq<bool>, k: int, j: int)
    requires
        0 <= j < 4,
    ensures
        0 <= chunk_value(bits, k) < 16,
        bit_of(chunk_value(bits, k), j) == bit_at(bits, 4 * k + j),
{
}

proof fn lemma_nibble_of_hex_byte(v: int)
    requires
        0 <= v < 16,
    ensures
        nibble(hex_byte(v)) == v,
{
}

/// Dropping high zero digits keeps a prefix of at least one digit; the
/// digits dropped are zeros.
proof fn lemma_drop_high_zeros(d: Seq<u8>)
    requires
        d.len() >= 1,
    ensures
        1 <= drop_high_zeros(d).len() <= d.len(),
        drop_high_zeros(d) == d.take(drop_high_zeros(d).len() as int),
        forall|k: int| drop_high_zeros(d).len() <= k < d.len() ==> d[k] == 48u8,
    decreases d.len(),
{
    if d.len() > 1 && d.last() == 48u8 {
        lemma_drop_high_zeros(d.drop_last());
        let r = drop_high_zeros(d.drop_last());
        assert(r == d.drop_last().take(r.len() as int));
        assert(d.drop_last().take(r.len() as int) =~= d.take(r.len() as int));
        assert forall|k: int| r.len() <= k < d.len() implies d[k] == 48u8 by {
            if k < d.len() - 1 {
                assert(d.drop_last()[k] == d[k]);
            }
        }
    } else {
        assert(d.take(d.len() as int) =~= d);
    }
}

/// The feature string of a bit vector announces exactly its set bits.
pub proof fn lemma_feature_string_bits(bits: Seq<bool>, i: int)
    requires
        bits.len() > 0,
        0 <= i,
    ensures
        bit_at(feature_bits(feature_string_bytes(bits)), i) == bit_at(bits, i),
{
    let d0 = chunk_digits(bits);
    let d = drop_high_zeros(d0);
    let b = feature_string_bytes(bits);
    lemma_drop_high_zeros(d0);
    let k = i / 4;
    let j = i % 4;
    lemma_chunk_bits(bits, k, j);
    if k < d.len() {
        assert(b[b.len() - 1 - k] == d[k]);
        assert(d[k] == d0[k]);
        lemma_nibble_of_hex_byte(chunk_value(bits, k));
        assert(feature_bits(b)[i] == bit_of(nibble(b[b.len() - 1 - i / 4]), i % 4));
    } else if k < d0.len() {
        assert(d0[k] == 48u8);
        assert(chunk_value(bits, k) == 0) by {
            if chunk_value(bits, k) != 0 {
                assert(hex_byte(chunk_value(bits, k)) != 48u8);
            }
        }
    } else {
        assert(4 * k >= bits.len());
    }
}

/// A string of lower-case hexadecimal digits is its own lower case.
proof fn lemma_lower_digits(bytes: Seq<u8>)
    requires
        forall|j: int| 0 <= j < bytes.len() ==> (48 <= #[trigger] bytes[j] <= 57) || (97 <= bytes[j] <= 102),
    ensures
        lower_bytes(bytes) == bytes,
{
    assert(lower_bytes(bytes) =~= bytes);
}

/// The bytes of a negotiated feature string, when there is one.
pub open spec fn negotiated_bytes(consumer: Seq<u8>) -> Seq<u8> {
    feature_string_bytes(trim_clear(supported_bits(feature_bits(lower_bytes(consumer)))))
}

proof fn lemma_trim_clear(bits: Seq<bool>, i: int)
    ensures
        bit_at(trim_clear(bits), i) == bit_at(bits, i),
        trim_clear(bits).len() <= bits.len(),
    decreases bits.len(),
{
    if bits.len() > 0 && !bits.last() {
        lemma_trim_clear(bits.drop_last(), i);
    }
}

/// Negotiation keeps exactly the features that the consumer announced and
/// this NSSF supports: the negotiated string announces feature `i` if and
/// only if the consumer's string announces it and the NSSF supports it.
pub proof fn law_negotiation_keeps_requested_and_supported(consumer: Seq<u8>, i: int)
    requires
        negotiated(consumer) is Some,
        0 <= i,
    ensures
        negotiated(consumer) == Some(ascii_chars(negotiated_bytes(consumer))),
        bit_at(feature_bits(negotiated_bytes(consumer)), i) == (bit_at(
            feature_bits(lower_bytes(consumer)),
            i,
        ) && nssf_supports(i)),
{
    let t = trim_clear(supported_bits(feature_bits(lower_bytes(consumer))));
    lemma_feature_string_bits(t, i);
    lemma_trim_clear(supported_bits(feature_bits(lower_bytes(consumer))), i);
}

/// Reading back a feature string gives back the bits it was made from:
/// parsing the string that `create_feature_string` makes of a bit vector
/// announces the same features as the vector.
pub proof fn law_feature_string_round_trip(bits: Seq<bool>, i: int)
    requires
        bits.len() > 0,
        0 <= i,
    ensures
        bit_at(feature_bits(lower_bytes(feature_string_bytes(bits))), i) == bit_at(bits, i),
{
    let d0 = chunk_digits(bits);
    lemma_drop_high_zeros(d0);
    let b = feature_string_bytes(bits);
    assert forall|j: int| 0 <= j < b.len() implies (48 <= #[trigger] b[j] <= 57) || (97 <= b[j] <= 102) by {
        let d = drop_high_zeros(d0);
        assert(b[j] == d[b.len() - 1 - j]);
        assert(d[b.len() - 1 - j] == d0[b.len() - 1 - j]);
        lemma_chunk_bits(bits, b.len() - 1 - j, 0);
        lemma_hex_byte_range(chunk_value(bits, b.len() - 1 - j));
    }
    lemma_lower_digits(b);
    lemma_feature_string_bits(bits, i);
}

proof fn lemma_bits_value(v: int)
    requires
        0 <= v < 16,
    ensures
        (if bit_of(v, 0) { 1int } else { 0int }) + (if bit_of(v, 1) { 2int } else { 0int }) + (if bit_of(
            v,
            2,
        ) { 4int } else { 0int }) + (if bit_of(v, 3) { 8int } else { 0int }) == v,
{
}

proof fn lemma_hex_byte_of_nibble(b: u8)
    requires
        (48 <= b <= 57) || (97 <= b <= 102),
    ensures
        0 <= nibble(b) < 16,
        hex_byte(nibble(b)) == b,
{
}

/// A feature string in canonical form (lower-case hexadecimal digits, no
/// leading zero unless it is the only digit) comes back unchanged when it
/// is parsed into bits and the bits are written out again.
pub proof fn law_canonical_feature_string_round_trip(bytes: Seq<u8>)
    requires
        bytes.len() > 0,
        forall|j: int| 0 <= j < bytes.len() ==> (48 <= #[trigger] bytes[j] <= 57) || (97 <= bytes[j] <= 102),
        bytes.len() == 1 || bytes[0] != 48u8,
    ensures
        feature_string_bytes(feature_bits(bytes)) == bytes,
        feature_string(feature_bits(bytes)) == Some(ascii_chars(bytes)),
{
    let n = bytes.len();
    let fb = feature_bits(bytes);
    let d0 = chunk_digits(fb);
    assert(d0.len() == n);
    assert forall|k: int| 0 <= k < n implies #[trigger] d0[k] == bytes.reverse()[k] by {
        let b = bytes[n - 1 - k];
        lemma_hex_byte_of_nibble(b);
        lemma_bits_value(nibble(b));
        assert(fb[4 * k] == bit_of(nibble(b), 0));
        assert(fb[4 * k + 1] == bit_of(nibble(b), 1));
        assert(fb[4 * k + 2] == bit_of(nibble(b), 2));
        assert(fb[4 * k + 3] == bit_of(nibble(b), 3));
        assert(chunk_value(fb, k) == nibble(b));
    }
    assert(d0 =~= bytes.reverse());
    assert(drop_high_zeros(d0) == d0) by {
        if d0.len() > 1 {
            assert(d0.last() == bytes[0]);
        }
    }
    assert(d0.reverse() =~= bytes);
}

/// Bit vectors that announce the same features trim to the same vector.
proof fn lemma_trim_clear_agree(x: Seq<bool>, y: Seq<bool>)
    requires
        forall|i: int| bit_at(x, i) == bit_at(y, i),
    ensures
        trim_clear(x) == trim_clear(y),
    decreases x.len() + y.len(),
{
    if x.len() > 0 && !x.last() {
        assert forall|i: int| bit_at(x.drop_last(), i) == bit_at(y, i) by {
            assert(bit_at(x, i) == bit_at(y, i));
        }
        lemma_trim_clear_agree(x.drop_last(), y);
    } else if y.len() > 0 && !y.last() {
        assert forall|i: int| bit_at(x, i) == bit_at(y.drop_last(), i) by {
            assert(bit_at(x, i) == bit_at(y, i));
        }
        lemma_trim_clear_agree(x, y.drop_last());
    } else {
        if x.len() > 0 {
            assert(bit_at(x, x.len() - 1) == bit_at(y, x.len() - 1));
        }
        if y.len() > 0 {
            assert(bit_at(x, y.len() - 1) == bit_at(y, y.len() - 1));
        }
        assert(x.len() == y.len());
        assert forall|i: int| 0 <= i < x.len() implies x[i] == y[i] by {
            assert(bit_at(x, i) == bit_at(y, i));
        }
        assert(x =~= y);
    }
}

/// A trimmed vector is empty or ends with a set bit.
proof fn lemma_trim_clear_shape(bits: Seq<bool>)
    ensures
        trim_clear(bits).len() == 0 || trim_clear(bits).last(),
    decreases bits.len(),
{
    if bits.len() > 0 && !bits.last() {
        lemma_trim_clear_shape(bits.drop_last());
    }
}

/// Negotiating again with what a negotiation returned gives the same
/// result, and the negotiated features are all among those the consumer
/// announced (so the consumer's string covers them).
pub proof fn law_negotiation_is_idempotent(consumer: Seq<u8>)
    requires
        negotiated(consumer) is Some,
    ensures
        negotiated(negotiated_bytes(consumer)) == negotiated(consumer),
        features_cover(consumer, negotiated_bytes(consumer)),
        forall|j: int|
            0 <= j < negotiated_bytes(consumer).len() ==> (48 <= #[trigger] negotiated_bytes(consumer)[j] <= 57)
                || (97 <= negotiated_bytes(consumer)[j] <= 102),
{
    let t = trim_clear(supported_bits(feature_bits(lower_bytes(consumer))));
    let b = negotiated_bytes(consumer);
    assert(t.len() > 0);
    let d0 = chunk_digits(t);
    lemma_drop_high_zeros(d0);
    assert forall|j: int| 0 <= j < b.len() implies (48 <= #[trigger] b[j] <= 57) || (97 <= b[j] <= 102) by {
        let d = drop_high_zeros(d0);
        assert(b[j] == d[b.len() - 1 - j]);
        assert(d[b.len() - 1 - j] == d0[b.len() - 1 - j]);
        lemma_chunk_bits(t, b.len() - 1 - j, 0);
        lemma_hex_byte_range(chunk_value(t, b.len() - 1 - j));
    }
    lemma_lower_digits(b);
    assert(b.len() > 0);
    assert(all_hex_bytes(b));
    let fb = feature_bits(lower_bytes(b));
    assert forall|i: int| bit_at(supported_bits(fb), i) == bit_at(t, i) by {
        if 0 <= i {
            lemma_feature_string_bits(t, i);
            law_negotiation_keeps_requested_and_supported(consumer, i);
            lemma_trim_clear(supported_bits(feature_bits(lower_bytes(consumer))), i);
        }
    }
    lemma_trim_clear_agree(supported_bits(fb), t);
    lemma_trim_clear_shape(supported_bits(feature_bits(lower_bytes(consumer))));
    assert(trim_clear(t) == t);
    assert forall|i: int| 0 <= i < fb.len() && #[trigger] fb[i] implies bit_at(feature_bits(lower_bytes(consumer)), i) by {
        law_negotiation_keeps_requested_and_supported(consumer, i);
    }
}

/// The UTF-8 bytes of the characters of lower-case hexadecimal digit bytes
/// are those bytes.
proof fn lemma_encode_hex_chars(b: Seq<u8>)
    requires
        forall|j: int| 0 <= j < b.len() ==> (48 <= #[trigger] b[j] <= 57) || (97 <= b[j] <= 102),
    ensures
        vstd::utf8::encode_utf8(ascii_chars(b)) == b,
{
    let c = ascii_chars(b);
    assert forall|i: int| 0 <= i < c.len() implies '\0' <= #[trigger] c[i] <= '\u{7f}' by {
        assert(c[i] == b[i] as char);
    }
    assert(vstd::utf8::is_ascii_chars(c));
    vstd::utf8::is_ascii_chars_encode_utf8(c);
    assert forall|i: int| 0 <= i < b.len() implies vstd::utf8::encode_utf8(c)[i] == b[i] by {
        assert(c[i] as u8 == vstd::utf8::encode_utf8(c)[i]);
        assert(c[i] == b[i] as char);
    }
    assert(vstd::utf8::encode_utf8(c) =~= b);
}

/// Negotiating again with the text that a negotiation returned gives the
/// same text, and the consumer's features cover the negotiated ones (as
/// `negotiate_features` and `validate_required_features` state them).
pub proof fn law_negotiating_twice_changes_nothing(consumer: Option<Seq<char>>)
    ensures
        negotiated_for(negotiated_for(consumer)) == negotiated_for(consumer),
        negotiated_for(consumer) is Some ==> features_cover(
            vstd::utf8::encode_utf8(consumer->0),
            vstd::utf8::encode_utf8(negotiated_for(consumer)->0),
        ),
{
    if let Some(c) = consumer {
        let bytes = vstd::utf8::encode_utf8(c);
        if negotiated(bytes) is Some {
            law_negotiation_is_idempotent(bytes);
            law_negotiation_keeps_requested_and_supported(bytes, 0);
            lemma_encode_hex_chars(negotiated_bytes(bytes));
        }
    }
}

} // verus!
