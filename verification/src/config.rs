//! Service configuration, and the PLMN identities written in it.
use vstd::prelude::*;
use vstd::string::*;
use vstd::utf8::*;
use crate::runtime::{is_random_uuid_text, new_uuid_text};
use crate::text::{comma_pieces, list_entries, split_list};
use crate::types::common::{opt_view, PlmnId};

verus! {

#[derive(Debug, Clone)]
pub struct Config {
    pub port: u16,
    pub server_host: String,
    pub mongodb_uri: String,
    pub mongodb_db_name: String,
    pub nrf_uri: Option<String>,
    pub home_plmn: String,
    pub allowed_plmns: Vec<String>,
    pub nf_instance_id: String,
}

/// A PLMN written as its MCC followed by its MNC, of at least five bytes
/// whose first three are the MCC, can be split there.
pub open spec fn plmn_text_splittable(text: Seq<char>) -> bool {
    encode_utf8(text).len() >= 5 ==> is_char_boundary(encode_utf8(text), 3)
}

/// The PLMN that the text names: from five bytes on, the first three bytes
/// are the MCC and the rest the MNC; a shorter text names the PLMN 999-70.
pub open spec fn plmn_from_text(text: Seq<char>, plmn: PlmnId) -> bool {
    let bytes = encode_utf8(text);
    if bytes.len() >= 5 {
        &&& encode_utf8(plmn.mcc@) == bytes.subrange(0, 3)
        &&& encode_utf8(plmn.mnc@) == bytes.subrange(3, bytes.len() as int)
    } else {
        plmn.mcc@ == "999"@ && plmn.mnc@ == "70"@
    }
}

/// The PLMN of a configured PLMN text (MCC followed by MNC).
pub fn parse_plmn(plmn_str: &str) -> (r: PlmnId)
    requires
        plmn_text_splittable(plmn_str@),
    ensures
        plmn_from_text(plmn_str@, r),
{
    if plmn_str.as_bytes().len() >= 5 {
        let (mcc, mnc) = plmn_str.split_at(3);
        let r = PlmnId { mcc: mcc.to_owned(), mnc: mnc.to_owned() };
        assert(encode_utf8(r.mcc@) == mcc.spec_bytes());
        assert(encode_utf8(r.mnc@) == mnc.spec_bytes());
        r
    } else {
        PlmnId { mcc: "999".to_owned(), mnc: "70".to_owned() }
    }
}

/// The home PLMN that the configuration names.
pub fn parse_home_plmn_from_config(home_plmn: &str) -> (r: PlmnId)
    requires
        plmn_text_splittable(home_plmn@),
    ensures
        plmn_from_text(home_plmn@, r),
{
    parse_plmn(home_plmn)
}

/// The text of a setting, or its default where it is not set.
pub open spec fn setting_or(value: Option<String>, default: Seq<char>) -> Seq<char> {
    match value {
        Some(v) => v@,
        None => default,
    }
}

/// The NRF address: a setting that is set and not empty.
pub open spec fn nrf_setting(value: Option<String>) -> Option<Seq<char>> {
    match value {
        Some(v) => if v@.len() > 0 { Some(v@) } else { None },
        None => None,
    }
}

fn text_or(value: Option<String>, default: &str) -> (r: String)
    ensures
        r@ == setting_or(value, default@),
{
    match value {
        Some(v) => v,
        None => default.to_owned(),
    }
}

impl Config {
    /// The configuration from the settings of the environment, each `None`
    /// where it is not set (the port already read as a number): the server
    /// listens on 0.0.0.0, the store is the local `nssf` database, the home
    /// and the allowed PLMN are 999-70 unless set; the allowed PLMNs are a
    /// comma separated list; an NRF address that is empty counts as unset;
    /// without a configured instance id a random UUID is drawn.
    pub fn from_settings(
        port: u16,
        server_host: Option<String>,
        mongodb_uri: Option<String>,
        mongodb_db_name: Option<String>,
        nrf_uri: Option<String>,
        home_plmn: Option<String>,
        allowed_plmns: Option<String>,
        nf_instance_id: Option<String>,
    ) -> (r: Config)
        ensures
            r.port == port,
            r.server_host@ == setting_or(server_host, "0.0.0.0"@),
            r.mongodb_uri@ == setting_or(mongodb_uri, "mongodb://localhost:27017"@),
            r.mongodb_db_name@ == setting_or(mongodb_db_name, "nssf"@),
            opt_view(r.nrf_uri) == nrf_setting(nrf_uri),
            r.home_plmn@ == setting_or(home_plmn, "99970"@),
            r.allowed_plmns@.map_values(|p: String| p@)
                == list_entries(comma_pieces(setting_or(allowed_plmns, "99970"@))),
            nf_instance_id matches Some(id) ==> r.nf_instance_id@ == id@,
            nf_instance_id is None ==> is_random_uuid_text(r.nf_instance_id@),
    {
        let nrf_uri = match nrf_uri {
            Some(u) => if u.unicode_len() > 0 { Some(u) } else { None },
            None => None,
        };
        let allowed_text = text_or(allowed_plmns, "99970");
        let allowed_plmns = split_list(allowed_text.as_str());
        let nf_instance_id = match nf_instance_id {
            Some(id) => id,
            None => new_uuid_text(),
        };
        Config {
            port,
            server_host: text_or(server_host, "0.0.0.0"),
            mongodb_uri: text_or(mongodb_uri, "mongodb://localhost:27017"),
            mongodb_db_name: text_or(mongodb_db_name, "nssf"),
            nrf_uri,
            home_plmn: text_or(home_plmn, "99970"),
            allowed_plmns,
            nf_instance_id,
        }
    }
}

} // verus!
