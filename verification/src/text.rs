//! Reading a text file: the caller hands in the outcome of reading the
//! file's bytes; the library decodes them and fixes the error strings.

use vstd::prelude::*;
use vstd::utf8::decode_utf8;
use vstd::utf8::valid_utf8;

verus! {

/// Relies on `String::from_utf8`: it succeeds exactly on valid UTF-8 and
/// returns the decoded characters.
#[verifier::external_body]
fn bytes_to_string(bytes: Vec<u8>) -> (r: Option<String>)
    ensures
        r is Some <==> valid_utf8(bytes@),
        (r matches Some(s) ==> s@ == decode_utf8(bytes@)),
{
    match String::from_utf8(bytes) {
        Ok(s) => Some(s),
        Err(_) => None,
    }
}

/// Returns the contents of a text file, given the outcome of reading its
/// bytes.  A read failure is surfaced verbatim; bytes that are not valid
/// UTF-8 are reported as such.
pub fn read_file(read_result: Result<Vec<u8>, String>) -> (r: Result<String, String>)
    ensures
        (read_result matches Err(e) ==> r matches Err(m) && m@ == e@),
        (read_result matches Ok(b) ==> {
            &&& r is Ok <==> valid_utf8(b@)
            &&& (r matches Ok(s) ==> s@ == decode_utf8(b@))
            &&& (r matches Err(m) ==> m@ == "stream did not contain valid UTF-8"@)
        }),
{
    match read_result {
        Ok(bytes) => match bytes_to_string(bytes) {
            Some(s) => Ok(s),
            None => Err(String::from_str("stream did not contain valid UTF-8")),
        },
        Err(e) => Err(e),
    }
}

} // verus!
