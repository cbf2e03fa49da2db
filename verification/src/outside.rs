//! Calls into std functions that vstd does not specify and into outside
//! crates (uuid, chrono, base64, reqwest, serde_json). Each item states only
//! what the called function's documentation or source shows; everything else
//! in the crate is proved from these statements.

use vstd::prelude::*;
use base64::Engine;
use vstd::utf8::{decode_utf8, valid_utf8};
use crate::ids::uuid_text;
use crate::encoding::base64_standard;
use crate::paths::{file_name_extension, is_plain_file_name};
use crate::project::ClockReading;

verus! {

/// `String::push` (std): appends one character at the end of the string.
#[verifier::external_body]
pub(crate) fn push_char(s: &mut String, c: char)
    ensures
        final(s)@ == old(s)@.push(c),
{
    s.push(c);
}

/// `uuid::Uuid::from_u128` followed by the `Display` of its hyphenated form:
/// the 32 lower-case hexadecimal digits of the value, most significant first,
/// with `-` after the 8th, 12th, 16th and 20th digit (uuid's `format_hyphenated`).
#[verifier::external_body]
pub(crate) fn uuid_to_string(id: u128) -> (s: String)
    ensures
        s@ == uuid_text(id),
{
    uuid::Uuid::from_u128(id).hyphenated().to_string()
}

/// `SystemTime::now().duration_since(UNIX_EPOCH)` (std): how far the system
/// clock stands from the Unix epoch, as whole seconds (`Duration::as_secs`)
/// and the nanoseconds past them (`Duration::subsec_nanos`, which the
/// documentation keeps below one billion). When the clock stands before the
/// epoch the call fails, and the distance is read from its error
/// (`SystemTimeError::duration`). Nothing else is promised of the values:
/// they come from the clock.
#[verifier::external_body]
pub(crate) fn system_clock() -> (r: ClockReading)
    ensures
        match r {
            ClockReading::After(_, n) => n < 1_000_000_000,
            ClockReading::Before(_, n) => n < 1_000_000_000,
        },
{
    match std::time::SystemTime::now().duration_since(std::time::UNIX_EPOCH) {
        Ok(d) => ClockReading::After(d.as_secs(), d.subsec_nanos()),
        Err(e) => ClockReading::Before(e.duration().as_secs(), e.duration().subsec_nanos()),
    }
}

/// `chrono::DateTime::<Utc>::from_timestamp` followed by `to_rfc3339`: the RFC
/// 3339 text of the instant `secs` seconds and `nanos` nanoseconds after the
/// Unix epoch, or `None` when chrono cannot represent that instant. The text
/// depends on the two numbers alone.
#[verifier::external_body]
pub(crate) fn rfc3339_text(secs: i64, nanos: u32) -> (r: Option<String>)
    ensures
        match r {
            Some(s) => rfc3339_of(secs as int, nanos as int) == Some(s@),
            None => rfc3339_of(secs as int, nanos as int) is None,
        },
{
    match chrono::DateTime::<chrono::Utc>::from_timestamp(secs, nanos) {
        Some(t) => Some(t.to_rfc3339()),
        None => None,
    }
}

/// `base64::engine::general_purpose::STANDARD.encode`: the padded base64
/// encoding of RFC 4648 with the standard alphabet.
#[verifier::external_body]
pub(crate) fn base64_encode(data: &[u8]) -> (s: String)
    ensures
        s@ == base64_standard(data@),
{
    base64::engine::general_purpose::STANDARD.encode(data)
}

/// `reqwest::Client::builder().build()`: a new HTTP client with default
/// settings, or the error that building it gave (its documentation: building
/// fails when a TLS backend cannot be initialized or the resolver cannot load
/// the system configuration). Which of the two comes back depends on the
/// machine and is not stated; the client itself is opaque.
#[verifier::external_body]
pub(crate) fn build_http_client() -> Result<reqwest::Client, reqwest::Error> {
    reqwest::Client::builder().build()
}

/// `Path::extension` (std) of `name`, as text. For a plain file name (no `/`,
/// not empty, `.` or `..`) the std documentation gives the result: `None` when
/// there is no `.` or the only `.` begins the name, otherwise the text after
/// the last `.`. For other names the result is not stated here.
#[verifier::external_body]
pub(crate) fn path_extension(name: &str) -> (r: Option<String>)
    ensures
        is_plain_file_name(name@) ==> match r {
            Some(e) => file_name_extension(name@) == Some(e@),
            None => file_name_extension(name@) is None,
        },
{
    match std::path::Path::new(name).extension() {
        Some(e) => match e.to_str() {
            Some(t) => Some(t.to_string()),
            None => None,
        },
        None => None,
    }
}

/// The `Display` text of a std I/O error (`ToString::to_string`). Nothing is
/// stated of it: the text comes from the operating system's description of
/// the error.
#[verifier::external_body]
pub(crate) fn io_error_text(e: &std::io::Error) -> String {
    e.to_string()
}

/// The `Display` text of a serde_json error (`ToString::to_string`). Nothing
/// is stated of it: the error value is opaque here.
#[verifier::external_body]
pub(crate) fn json_error_text(e: &serde_json::Error) -> String {
    e.to_string()
}

/// The `Display` text of a reqwest error (`ToString::to_string`). Nothing is
/// stated of it: the error value is opaque here.
#[verifier::external_body]
pub(crate) fn reqwest_error_text(e: &reqwest::Error) -> String {
    e.to_string()
}

/// Whether a std I/O error is of kind `ErrorKind::NotFound`
/// (`io::Error::kind`). Nothing is stated: the error value is opaque here.
#[verifier::external_body]
pub(crate) fn io_error_is_not_found(e: &std::io::Error) -> bool {
    e.kind() == std::io::ErrorKind::NotFound
}

/// `String::from_utf8_lossy` (std), as an owned string: for valid UTF-8 the
/// text the bytes encode (the documentation: valid input is returned as it
/// is); invalid sequences become U+FFFD, which is not stated here.
#[verifier::external_body]
pub(crate) fn lossy_text(bytes: &[u8]) -> (s: String)
    ensures
        valid_utf8(bytes@) ==> s@ == decode_utf8(bytes@),
{
    String::from_utf8_lossy(bytes).into_owned()
}

/// serde_json's error type, carried opaque.
#[verifier::external_type_specification]
#[verifier::external_body]
pub struct ExJsonError(serde_json::Error);

/// The HTTP client type of reqwest, carried opaque.
#[verifier::external_type_specification]
#[verifier::external_body]
pub struct ExReqwestClient(reqwest::Client);

/// The RFC 3339 text that chrono gives the instant `secs` seconds and `nanos`
/// nanoseconds after the Unix epoch (`None` when chrono has no such instant).
pub uninterp spec fn rfc3339_of(secs: int, nanos: int) -> Option<Seq<char>>;

/// std's I/O error, carried opaque inside the library's error types.
#[verifier::external_type_specification]
#[verifier::external_body]
pub struct ExIoError(std::io::Error);

} // verus!
