//! The signing/header decorator: the dynamic signature header set the record
//! APIs require, derived from the region's salt, a timestamp and a random
//! salt value, plus the language header defaulting to `en-us`.

use vstd::prelude::*;
use vstd::string::*;
use crate::text::dec_str;
use crate::text::opt_str_view;
use crate::text::pair_views;
use crate::text::u64_to_dec;
use crate::types::Region;

verus! {

/// The signing salt of a region.
pub open spec fn ds_salt(r: Region) -> Seq<char> {
    match r {
        Region::OVERSEAS => "6s25p5ox5y14umn1p61aqyyvbvvl3lrt"@,
        Region::CHINESE => "xV8v4Qu54lUKrEYFZkJhB8cuOh9Asafs"@,
    }
}

/// The application version advertised alongside the signature.
pub open spec fn rpc_app_version(r: Region) -> Seq<char> {
    match r {
        Region::OVERSEAS => "1.5.0"@,
        Region::CHINESE => "2.11.1"@,
    }
}

/// The client type advertised alongside the signature.
pub open spec fn rpc_client_type(r: Region) -> Seq<char> {
    match r {
        Region::OVERSEAS => "5"@,
        Region::CHINESE => "5"@,
    }
}

/// The lowercase hex rendering of the MD5 digest of a text; a pure function
/// of the input, computed by an outside crate.
pub uninterp spec fn md5_hex_of(s: Seq<char>) -> Seq<char>;

/// Relies on md5::compute, which returns the 16-byte MD5 digest of the input
/// bytes, and on the digest's LowerHex rendering, which writes each byte as
/// two lowercase hex digits: a pure function of the input, 32 digits long.
#[verifier::external_body]
fn md5_hex(s: &str) -> (r: String)
    ensures
        r@ == md5_hex_of(s@),
        r@.len() == 32,
{
    let digest = md5::compute(s.as_bytes());
    format!("{:x}", digest)
}

/// Relies on rand::random, rand 0.8: a value drawn from the thread-local
/// generator; nothing is promised of it.
pub assume_specification<T>[ rand::random::<T> ]() -> (r: T)
    where
        rand::distributions::Standard: rand::distributions::Distribution<T>,
;

/// Relies on std::time::SystemTime::now, with duration_since the Unix epoch
/// and as_secs, to read the wall clock in whole seconds; nothing is promised
/// of the value.
#[verifier::external_body]
fn now_unix_seconds() -> u64 {
    match std::time::SystemTime::now().duration_since(std::time::UNIX_EPOCH) {
        Ok(d) => d.as_secs(),
        Err(_) => 0,
    }
}

/// The text whose digest authenticates a request: the region's salt and the
/// two per-request inputs, in query form.
pub open spec fn ds_check_input(r: Region, t: nat, s: nat) -> Seq<char> {
    "salt="@ + ds_salt(r) + "&t="@ + dec_str(t) + "&r="@ + dec_str(s)
}

/// The value of the signature header: timestamp, salt value, and the digest
/// of the check text, comma-separated.
pub open spec fn ds_value_spec(r: Region, t: nat, s: nat) -> Seq<char> {
    dec_str(t) + ","@ + dec_str(s) + ","@ + md5_hex_of(ds_check_input(r, t, s))
}

/// The language header value: the caller's tag, or `en-us` when unspecified.
pub open spec fn lang_or_default(l: Option<Seq<char>>) -> Seq<char> {
    match l {
        Some(s) => s,
        None => "en-us"@,
    }
}

/// The full dynamic header set of one request.
pub open spec fn ds_headers_spec(r: Region, l: Option<Seq<char>>, t: nat, s: nat) -> Seq<
    (Seq<char>, Seq<char>),
> {
    seq![
        ("DS"@, ds_value_spec(r, t, s)),
        ("x-rpc-app_version"@, rpc_app_version(r)),
        ("x-rpc-client_type"@, rpc_client_type(r)),
        ("x-rpc-language"@, lang_or_default(l)),
    ]
}

/// The signing salt of a region, as a string.
fn ds_salt_str(r: Region) -> (s: String)
    ensures
        s@ == ds_salt(r),
{
    match r {
        Region::OVERSEAS => "6s25p5ox5y14umn1p61aqyyvbvvl3lrt".to_owned(),
        Region::CHINESE => "xV8v4Qu54lUKrEYFZkJhB8cuOh9Asafs".to_owned(),
    }
}

/// Computes the signature header value for given timestamp and salt value.
pub fn ds_value(r: Region, t: u64, s: u32) -> (v: String)
    ensures
        v@ == ds_value_spec(r, t as nat, s as nat),
{
    let t_text = u64_to_dec(t);
    let s_text = u64_to_dec(s as u64);
    let mut check = "salt=".to_owned();
    check.append(ds_salt_str(r).as_str());
    check.append("&t=");
    check.append(t_text.as_str());
    check.append("&r=");
    check.append(s_text.as_str());
    let digest = md5_hex(check.as_str());
    let mut v = t_text;
    v.append(",");
    v.append(s_text.as_str());
    v.append(",");
    v.append(digest.as_str());
    v
}

/// Assembles the dynamic header set for one request from its region,
/// optional language tag, timestamp and random salt value.
pub fn get_ds_headers(r: &Region, lang: Option<&str>, t: u64, s: u32) -> (h: Vec<
    (String, String),
>)
    ensures
        pair_views(h@) == ds_headers_spec(*r, opt_str_view(lang), t as nat, s as nat),
{
    let mut h: Vec<(String, String)> = Vec::new();
    h.push(("DS".to_owned(), ds_value(*r, t, s)));
    let version = match r {
        Region::OVERSEAS => "1.5.0".to_owned(),
        Region::CHINESE => "2.11.1".to_owned(),
    };
    h.push(("x-rpc-app_version".to_owned(), version));
    h.push(("x-rpc-client_type".to_owned(), "5".to_owned()));
    let lang_value = match lang {
        Some(l) => l.to_owned(),
        None => "en-us".to_owned(),
    };
    h.push(("x-rpc-language".to_owned(), lang_value));
    proof {
        assert(pair_views(h@) =~= ds_headers_spec(*r, opt_str_view(lang), t as nat, s as nat));
    }
    h
}

/// Draws the two per-request signature inputs: the current wall-clock second
/// and a random salt value. Fresh on every call, so signatures are never
/// reused across requests.
pub fn fresh_signature_inputs() -> (u64, u32) {
    let t = now_unix_seconds();
    let s: u32 = rand::random::<u32>();
    (t, s)
}

} // verus!
