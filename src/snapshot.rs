use vstd::prelude::*;
use vstd::utf8::{decode_utf8, valid_utf8};

verus! {

/// Why the diff tool's output could not be taken as a snapshot.
#[derive(Clone, Copy, Debug, PartialEq, Eq, Structural)]
pub enum SnapshotError {
    /// The output is not valid UTF-8.
    NotUtf8,
}

/// Relies on `String::from_utf8`: succeeds exactly on valid UTF-8, and the
/// string then holds the characters that the bytes encode.
#[verifier::external_body]
fn string_from_utf8(bytes: Vec<u8>) -> (r: Option<String>)
    ensures
        r is Some <==> valid_utf8(bytes@),
        r matches Some(s) ==> s@ == decode_utf8(bytes@),
{
    String::from_utf8(bytes).ok()
}

/// Takes the diff tool's standard output as the current snapshot. An empty
/// output is the empty snapshot: no changes.
pub fn snapshot_from_output(stdout: Vec<u8>) -> (r: Result<String, SnapshotError>)
    ensures
        r is Ok <==> valid_utf8(stdout@),
        r matches Ok(s) ==> s@ == decode_utf8(stdout@),
        r matches Err(e) ==> e == SnapshotError::NotUtf8,
{
    match string_from_utf8(stdout) {
        Some(s) => Ok(s),
        None => Err(SnapshotError::NotUtf8),
    }
}

} // verus!
