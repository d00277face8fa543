//! Declarations of the outside types that values of this library carry,
//! and the trusted calls into std and outside crates that the verified
//! code makes.

use vstd::prelude::*;
use std::time::{Duration, SystemTime};

verus! {

/// A JSON value of `serde_json`, carried through opaquely.
#[verifier::external_type_specification]
#[verifier::external_body]
pub struct ExJsonValue(serde_json::Value);

/// The sending half of a `tokio` one-shot channel, carried through opaquely.
#[verifier::external_type_specification]
#[verifier::external_body]
#[verifier::reject_recursive_types(T)]
pub struct ExOneshotSender<T>(tokio::sync::oneshot::Sender<T>);

/// The duration `Duration::from_secs(secs)`: exactly `secs` whole seconds.
pub uninterp spec fn seconds(secs: u64) -> Duration;

/// Calls `std::time::Duration::from_secs`, which builds the duration of
/// `secs` whole seconds; the result is named `seconds(secs)`.
#[verifier::external_body]
pub fn duration_from_secs(secs: u64) -> (d: Duration)
    ensures
        d == seconds(secs),
{
    Duration::from_secs(secs)
}

/// `Clone::clone` of `serde_json::Value`, a derived clone that copies the
/// value; the contract claims the copy equals the original.
pub assume_specification[ <serde_json::Value as Clone>::clone ](v: &serde_json::Value) -> (r: serde_json::Value)
    ensures
        r == *v,
;

/// Calls `serde_json::Value::default`, the JSON `null`. Nothing is stated
/// of the result: the value is opaque here.
#[verifier::external_body]
pub fn json_null() -> serde_json::Value {
    serde_json::Value::default()
}

/// The text of member `key` of the JSON value `v`: `Some(text)` when `v`
/// is an object whose member `key` is a string, `None` otherwise.
pub uninterp spec fn json_text_member(v: serde_json::Value, key: Seq<char>) -> Option<Seq<char>>;

/// Calls `serde_json::Value::get(key)` and then `Value::as_str`: the text
/// of member `key` when `v` is an object whose member `key` is a string,
/// `None` otherwise. The result depends on `v` and `key` alone; it is
/// named `json_text_member(*v, key@)`.
#[verifier::external_body]
pub fn json_str_member(v: &serde_json::Value, key: &str) -> (r: Option<String>)
    ensures
        match r {
            Some(s) => json_text_member(*v, key@) == Some(s@),
            None => json_text_member(*v, key@) is None,
        },
{
    v.get(key).and_then(serde_json::Value::as_str).map(String::from)
}

} // verus!

verus! {

/// The version 5 (name-based, SHA-1) UUID of `name`'s UTF-8 bytes in the
/// OID namespace, as a 128-bit number.
pub uninterp spec fn oid_uuid_v5(name: Seq<char>) -> u128;

/// Calls `uuid::Uuid::new_v5(&Uuid::NAMESPACE_OID, name.as_bytes())` and
/// takes the result as a `u128`. The UUID is a function of the name alone;
/// it is named `oid_uuid_v5(name)`.
#[verifier::external_body]
pub fn uuid_v5_oid(name: &str) -> (id: u128)
    ensures
        id == oid_uuid_v5(name@),
{
    uuid::Uuid::new_v5(&uuid::Uuid::NAMESPACE_OID, name.as_bytes()).as_u128()
}

} // verus!

verus! {

/// Calls `format!("{:?}", v)`: the `Debug` text of `v`. Nothing is stated
/// of the text, which the derived `Debug` impls decide.
#[verifier::external_body]
pub fn debug_text<T: std::fmt::Debug>(v: &T) -> String {
    format!("{:?}", v)
}

} // verus!

verus! {

/// A point in time of the system clock, carried through opaquely.
#[verifier::external_type_specification]
#[verifier::external_body]
pub struct ExSystemTime(std::time::SystemTime);

/// Calls `std::time::SystemTime::now`: the current time of the system
/// clock. It depends on the clock, so nothing is stated of it.
#[verifier::external_body]
pub fn system_time_now() -> SystemTime {
    SystemTime::now()
}

/// Calls `SystemTime::duration_since(UNIX_EPOCH)`: the time elapsed since
/// the Unix epoch, `None` when `t` lies before it (the call's `Err`).
/// Nothing is stated of the result: `t` is opaque here.
#[verifier::external_body]
pub fn since_unix_epoch(t: &SystemTime) -> Option<Duration> {
    t.duration_since(std::time::UNIX_EPOCH).ok()
}

/// Calls `UNIX_EPOCH.duration_since(t)`: how long before the Unix epoch
/// `t` lies, `None` when it does not lie before it (the call's `Err`).
/// Nothing is stated of the result: `t` is opaque here.
#[verifier::external_body]
pub fn until_unix_epoch(t: &SystemTime) -> Option<Duration> {
    std::time::UNIX_EPOCH.duration_since(*t).ok()
}

/// Calls `Duration::subsec_nanos`: the nanoseconds of `d` beyond its whole
/// seconds, below one billion as its documentation says.
#[verifier::external_body]
pub fn subsec_nanos(d: &Duration) -> (n: u32)
    ensures
        n < 1_000_000_000,
{
    d.subsec_nanos()
}

/// Calls `Duration::as_secs`: the whole seconds of `d`. Nothing is stated
/// of the result: `d` is opaque here.
#[verifier::external_body]
pub fn whole_secs(d: &Duration) -> u64 {
    d.as_secs()
}

} // verus!
