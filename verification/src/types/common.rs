//! Identifiers shared by every service: PLMN, S-NSSAI, TAI, NF types and
//! problem details.
use vstd::prelude::*;
use vstd::string::*;

verus! {

#[derive(Debug, Clone, PartialEq)]
pub struct PlmnId {
    pub mcc: String,
    pub mnc: String,
}

#[derive(Debug, Clone, PartialEq)]
pub struct Snssai {
    pub sst: u8,
    pub sd: Option<String>,
}

#[derive(Debug, Clone, PartialEq)]
pub struct Tai {
    pub plmn_id: PlmnId,
    pub tac: String,
}

/// An instant in UTC: seconds since the Unix epoch and the nanoseconds past
/// that second (at least one billion during a leap second).
#[derive(Debug, Clone, Copy, PartialEq, Eq)]
pub struct Timestamp {
    pub secs: i64,
    pub nanos: u32,
}

impl Timestamp {
    /// The order of instants: by second, then by nanosecond.
    pub open spec fn before(self, other: Timestamp) -> bool {
        self.secs < other.secs || (self.secs == other.secs && self.nanos < other.nanos)
    }

    pub fn is_before(&self, other: &Timestamp) -> (b: bool)
        ensures
            b == self.before(*other),
    {
        self.secs < other.secs || (self.secs == other.secs && self.nanos < other.nanos)
    }
}

/// A copy of a string that verified code can reason about.
pub fn copy_string(s: &String) -> (r: String)
    ensures
        r == *s,
{
    s.clone()
}

pub fn copy_opt_string(s: &Option<String>) -> (r: Option<String>)
    ensures
        r == *s,
{
    match s {
        Some(v) => Some(v.clone()),
        None => None,
    }
}

impl PlmnId {
    pub fn copy(&self) -> (r: PlmnId)
        ensures
            r == *self,
    {
        PlmnId { mcc: self.mcc.clone(), mnc: self.mnc.clone() }
    }
}

impl Snssai {
    pub fn copy(&self) -> (r: Snssai)
        ensures
            r == *self,
    {
        Snssai { sst: self.sst, sd: copy_opt_string(&self.sd) }
    }
}

impl Tai {
    pub fn copy(&self) -> (r: Tai)
        ensures
            r == *self,
    {
        Tai { plmn_id: self.plmn_id.copy(), tac: self.tac.clone() }
    }
}

/// A copy of a list of S-NSSAIs.
pub fn copy_snssais(v: &Vec<Snssai>) -> (r: Vec<Snssai>)
    ensures
        r@ == v@,
{
    let mut r: Vec<Snssai> = Vec::new();
    let mut i: usize = 0;
    while i < v.len()
        invariant
            i <= v.len(),
            r@ == v@.take(i as int),
        decreases v.len() - i,
    {
        r.push(v[i].copy());
        i = i + 1;
        assert(r@ =~= v@.take(i as int));
    }
    assert(v@.take(v.len() as int) =~= v@);
    r
}

/// A copy of a list of TAIs.
pub fn copy_tais(v: &Vec<Tai>) -> (r: Vec<Tai>)
    ensures
        r@ == v@,
{
    let mut r: Vec<Tai> = Vec::new();
    let mut i: usize = 0;
    while i < v.len()
        invariant
            i <= v.len(),
            r@ == v@.take(i as int),
        decreases v.len() - i,
    {
        r.push(v[i].copy());
        i = i + 1;
        assert(r@ =~= v@.take(i as int));
    }
    assert(v@.take(v.len() as int) =~= v@);
    r
}

/// A copy of a list of strings.
pub fn copy_strings(v: &Vec<String>) -> (r: Vec<String>)
    ensures
        r@ == v@,
{
    let mut r: Vec<String> = Vec::new();
    let mut i: usize = 0;
    while i < v.len()
        invariant
            i <= v.len(),
            r@ == v@.take(i as int),
        decreases v.len() - i,
    {
        r.push(v[i].clone());
        i = i + 1;
        assert(r@ =~= v@.take(i as int));
    }
    assert(v@.take(v.len() as int) =~= v@);
    r
}

/// Two per-service flag lists (NF service name, OAuth2 required) hold the same entries.
pub open spec fn same_service_flags(a: Option<Vec<(String, bool)>>, b: Option<Vec<(String, bool)>>) -> bool {
    match (a, b) {
        (Some(x), Some(y)) => x@ == y@,
        (None, None) => true,
        _ => false,
    }
}

/// No two entries of a key-value list have the same key: the list stands
/// for a map from keys to values.
pub open spec fn keys_unique<T>(entries: Seq<(String, T)>) -> bool {
    forall|i: int, j: int| 0 <= i < j < entries.len() ==> (#[trigger] entries[i]).0@ != (#[trigger] entries[j]).0@
}

/// A per-service flag list names each NF service at most once.
pub open spec fn service_flags_well_formed(flags: Option<Vec<(String, bool)>>) -> bool {
    match flags {
        Some(v) => keys_unique(v@),
        None => true,
    }
}

/// A flag list that holds the same entries as a well-formed one is well-formed.
pub proof fn law_same_service_flags_keep_unique_names(
    a: Option<Vec<(String, bool)>>,
    b: Option<Vec<(String, bool)>>,
)
    requires
        same_service_flags(a, b),
        service_flags_well_formed(b),
    ensures
        service_flags_well_formed(a),
{
}

/// A copy of a per-service flag list.
pub fn copy_service_flags(v: &Option<Vec<(String, bool)>>) -> (r: Option<Vec<(String, bool)>>)
    ensures
        same_service_flags(r, *v),
        service_flags_well_formed(*v) ==> service_flags_well_formed(r),
{
    match v {
        Some(list) => {
            let mut out: Vec<(String, bool)> = Vec::new();
            let mut i: usize = 0;
            while i < list.len()
                invariant
                    i <= list@.len(),
                    out@ == list@.take(i as int),
                decreases list.len() - i,
            {
                let (name, flag) = &list[i];
                out.push((name.clone(), *flag));
                i = i + 1;
                assert(out@ =~= list@.take(i as int));
            }
            assert(list@.take(i as int) =~= list@);
            Some(out)
        },
        None => None,
    }
}

#[derive(Debug, Clone, PartialEq)]
pub enum NfType {
    Nrf,
    Udm,
    Amf,
    Smf,
    Ausf,
    Nef,
    Pcf,
    Smsf,
    Nssf,
    Udr,
    Lmf,
    Gmlc,
    FiveGEir,
    Sepp,
    Upf,
    N3Iwf,
    Af,
    Udsf,
    Bsf,
    Chf,
    Nwdaf,
    Pcscf,
    Cbcf,
    Hss,
    Ucmf,
    SorAf,
    SprAf,
    Mme,
    Scsas,
    Scef,
    Scp,
    Nssaaf,
    Icscf,
    Scscf,
    Dra,
    ImsAs,
    Aanf,
    FiveGDdnmf,
    Nsacf,
    Mfaf,
    Easdf,
    Dccf,
    MbSmf,
    Tsctsf,
    Adrf,
    GbaBsf,
    Cef,
    MbUpf,
    Nswof,
    Pkmf,
    Mnpf,
    SmsGmsc,
    SmsIwmsc,
    Mbsf,
    Mbstf,
    Panf,
}

impl NfType {
    /// The name of the NF type on the wire (3GPP TS 29.510 `NFType`).
    pub open spec fn wire_name(self) -> Seq<char> {
        match self {
            NfType::Nrf => "NRF"@,
            NfType::Udm => "UDM"@,
            NfType::Amf => "AMF"@,
            NfType::Smf => "SMF"@,
            NfType::Ausf => "AUSF"@,
            NfType::Nef => "NEF"@,
            NfType::Pcf => "PCF"@,
            NfType::Smsf => "SMSF"@,
            NfType::Nssf => "NSSF"@,
            NfType::Udr => "UDR"@,
            NfType::Lmf => "LMF"@,
            NfType::Gmlc => "GMLC"@,
            NfType::FiveGEir => "5G_EIR"@,
            NfType::Sepp => "SEPP"@,
            NfType::Upf => "UPF"@,
            NfType::N3Iwf => "N3_IWF"@,
            NfType::Af => "AF"@,
            NfType::Udsf => "UDSF"@,
            NfType::Bsf => "BSF"@,
            NfType::Chf => "CHF"@,
            NfType::Nwdaf => "NWDAF"@,
            NfType::Pcscf => "PCSCF"@,
            NfType::Cbcf => "CBCF"@,
            NfType::Hss => "HSS"@,
            NfType::Ucmf => "UCMF"@,
            NfType::SorAf => "SOR_AF"@,
            NfType::SprAf => "SPR_AF"@,
            NfType::Mme => "MME"@,
            NfType::Scsas => "SCSAS"@,
            NfType::Scef => "SCEF"@,
            NfType::Scp => "SCP"@,
            NfType::Nssaaf => "NSSAAF"@,
            NfType::Icscf => "ICSCF"@,
            NfType::Scscf => "SCSCF"@,
            NfType::Dra => "DRA"@,
            NfType::ImsAs => "IMS_AS"@,
            NfType::Aanf => "AANF"@,
            NfType::FiveGDdnmf => "5G_DDNMF"@,
            NfType::Nsacf => "NSACF"@,
            NfType::Mfaf => "MFAF"@,
            NfType::Easdf => "EASDF"@,
            NfType::Dccf => "DCCF"@,
            NfType::MbSmf => "MB_SMF"@,
            NfType::Tsctsf => "TSCTSF"@,
            NfType::Adrf => "ADRF"@,
            NfType::GbaBsf => "GBA_BSF"@,
            NfType::Cef => "CEF"@,
            NfType::MbUpf => "MB_UPF"@,
            NfType::Nswof => "NSWOF"@,
            NfType::Pkmf => "PKMF"@,
            NfType::Mnpf => "MNPF"@,
            NfType::SmsGmsc => "SMS_GMSC"@,
            NfType::SmsIwmsc => "SMS_IWMSC"@,
            NfType::Mbsf => "MBSF"@,
            NfType::Mbstf => "MBSTF"@,
            NfType::Panf => "PANF"@,
        }
    }

    /// The wire name of the NF type, as it is written in URLs and messages.
    pub fn as_str(&self) -> (r: &'static str)
        ensures
            r@ == self.wire_name(),
    {
        match self {
            NfType::Nrf => "NRF",
            NfType::Udm => "UDM",
            NfType::Amf => "AMF",
            NfType::Smf => "SMF",
            NfType::Ausf => "AUSF",
            NfType::Nef => "NEF",
            NfType::Pcf => "PCF",
            NfType::Smsf => "SMSF",
            NfType::Nssf => "NSSF",
            NfType::Udr => "UDR",
            NfType::Lmf => "LMF",
            NfType::Gmlc => "GMLC",
            NfType::FiveGEir => "5G_EIR",
            NfType::Sepp => "SEPP",
            NfType::Upf => "UPF",
            NfType::N3Iwf => "N3_IWF",
            NfType::Af => "AF",
            NfType::Udsf => "UDSF",
            NfType::Bsf => "BSF",
            NfType::Chf => "CHF",
            NfType::Nwdaf => "NWDAF",
            NfType::Pcscf => "PCSCF",
            NfType::Cbcf => "CBCF",
            NfType::Hss => "HSS",
            NfType::Ucmf => "UCMF",
            NfType::SorAf => "SOR_AF",
            NfType::SprAf => "SPR_AF",
            NfType::Mme => "MME",
            NfType::Scsas => "SCSAS",
            NfType::Scef => "SCEF",
            NfType::Scp => "SCP",
            NfType::Nssaaf => "NSSAAF",
            NfType::Icscf => "ICSCF",
            NfType::Scscf => "SCSCF",
            NfType::Dra => "DRA",
            NfType::ImsAs => "IMS_AS",
            NfType::Aanf => "AANF",
            NfType::FiveGDdnmf => "5G_DDNMF",
            NfType::Nsacf => "NSACF",
            NfType::Mfaf => "MFAF",
            NfType::Easdf => "EASDF",
            NfType::Dccf => "DCCF",
            NfType::MbSmf => "MB_SMF",
            NfType::Tsctsf => "TSCTSF",
            NfType::Adrf => "ADRF",
            NfType::GbaBsf => "GBA_BSF",
            NfType::Cef => "CEF",
            NfType::MbUpf => "MB_UPF",
            NfType::Nswof => "NSWOF",
            NfType::Pkmf => "PKMF",
            NfType::Mnpf => "MNPF",
            NfType::SmsGmsc => "SMS_GMSC",
            NfType::SmsIwmsc => "SMS_IWMSC",
            NfType::Mbsf => "MBSF",
            NfType::Mbstf => "MBSTF",
            NfType::Panf => "PANF",
        }
    }
}

#[derive(Debug, Clone, PartialEq)]
pub enum NfStatus {
    Registered,
    Suspended,
    Undiscoverable,
}

impl NfStatus {
    pub open spec fn wire_name(self) -> Seq<char> {
        match self {
            NfStatus::Registered => "REGISTERED"@,
            NfStatus::Suspended => "SUSPENDED"@,
            NfStatus::Undiscoverable => "UNDISCOVERABLE"@,
        }
    }

    /// The wire name of the status.
    pub fn as_str(&self) -> (r: &'static str)
        ensures
            r@ == self.wire_name(),
    {
        match self {
            NfStatus::Registered => "REGISTERED",
            NfStatus::Suspended => "SUSPENDED",
            NfStatus::Undiscoverable => "UNDISCOVERABLE",
        }
    }

    pub fn is_registered(&self) -> (b: bool)
        ensures
            b == (*self is Registered),
    {
        match self {
            NfStatus::Registered => true,
            _ => false,
        }
    }
}

/// Problem details of RFC 7807 as 3GPP uses them.
#[derive(Debug, Clone)]
pub struct ProblemDetails {
    pub problem_type: Option<String>,
    pub title: Option<String>,
    pub status: Option<u16>,
    pub detail: Option<String>,
    pub instance: Option<String>,
    pub cause: Option<String>,
    pub invalid_params: Option<Vec<InvalidParam>>,
    pub supported_features: Option<String>,
}

#[derive(Debug, Clone)]
pub struct InvalidParam {
    pub param: String,
    pub reason: Option<String>,
}

/// The RFC 7231 section that describes a status code, for the codes that
/// problem details of this service link to.
pub open spec fn problem_type_for(status: u16) -> Option<Seq<char>> {
    if status == 400 {
        Some("https://tools.ietf.org/html/rfc7231#section-6.5.1"@)
    } else if status == 404 {
        Some("https://tools.ietf.org/html/rfc7231#section-6.5.4"@)
    } else if status == 500 {
        Some("https://tools.ietf.org/html/rfc7231#section-6.6.1"@)
    } else if status == 503 {
        Some("https://tools.ietf.org/html/rfc7231#section-6.6.3"@)
    } else if status == 504 {
        Some("https://tools.ietf.org/html/rfc7231#section-6.6.5"@)
    } else {
        None
    }
}

pub open spec fn opt_view(o: Option<String>) -> Option<Seq<char>> {
    match o {
        Some(s) => Some(s@),
        None => None,
    }
}

impl ProblemDetails {
    pub fn new(status: u16, title: &str, detail: &str) -> (r: Self)
        ensures
            opt_view(r.problem_type) == problem_type_for(status),
            (r.title is Some) && r.title->0@ == title@,
            r.status == Some(status),
            (r.detail is Some) && r.detail->0@ == detail@,
            r.instance is None,
            r.cause is None,
            r.invalid_params is None,
            r.supported_features is None,
    {
        let problem_type: Option<String> = if status == 400 {
            Some("https://tools.ietf.org/html/rfc7231#section-6.5.1".to_owned())
        } else if status == 404 {
            Some("https://tools.ietf.org/html/rfc7231#section-6.5.4".to_owned())
        } else if status == 500 {
            Some("https://tools.ietf.org/html/rfc7231#section-6.6.1".to_owned())
        } else if status == 503 {
            Some("https://tools.ietf.org/html/rfc7231#section-6.6.3".to_owned())
        } else if status == 504 {
            Some("https://tools.ietf.org/html/rfc7231#section-6.6.5".to_owned())
        } else {
            None
        };
        ProblemDetails {
            problem_type: problem_type,
            title: Some(title.to_owned()),
            status: Some(status),
            detail: Some(detail.to_owned()),
            instance: None,
            cause: None,
            invalid_params: None,
            supported_features: None,
        }
    }

    pub fn with_cause(self, cause: &str) -> (r: Self)
        ensures
            (r.cause is Some) && r.cause->0@ == cause@,
            r.problem_type == self.problem_type,
            r.title == self.title,
            r.status == self.status,
            r.detail == self.detail,
            r.instance == self.instance,
            r.invalid_params == self.invalid_params,
            r.supported_features == self.supported_features,
    {
        ProblemDetails { cause: Some(cause.to_owned()), ..self }
    }

    pub fn with_instance(self, instance: &str) -> (r: Self)
        ensures
            (r.instance is Some) && r.instance->0@ == instance@,
            r.problem_type == self.problem_type,
            r.title == self.title,
            r.status == self.status,
            r.detail == self.detail,
            r.cause == self.cause,
            r.invalid_params == self.invalid_params,
            r.supported_features == self.supported_features,
    {
        ProblemDetails { instance: Some(instance.to_owned()), ..self }
    }

    pub fn with_invalid_params(self, params: Vec<InvalidParam>) -> (r: Self)
        ensures
            r.invalid_params == Some(params),
            r.problem_type == self.problem_type,
            r.title == self.title,
            r.status == self.status,
            r.detail == self.detail,
            r.cause == self.cause,
            r.instance == self.instance,
            r.supported_features == self.supported_features,
    {
        ProblemDetails { invalid_params: Some(params), ..self }
    }
}

} // verus!
