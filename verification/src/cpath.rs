use vstd::prelude::*;

use vstd::string::StringSliceAdditionalSpecFns;
use vstd::string::StrSliceExecFns;

use crate::error::GraphicsError;

verus! {

/// Relies on `cstr_core::CString::new`: it fails exactly when the bytes hold
/// an interior nul, and otherwise owns the bytes with a single nul terminator
/// appended, read back here through `CString::into_bytes_with_nul`.
#[verifier::external_body]
fn c_string_bytes(bytes: Vec<u8>) -> (r: Option<Vec<u8>>)
    ensures
        (r is Some) <==> !bytes@.contains(0u8),
        r matches Some(v) ==> v@ == bytes@.push(0u8),
{
    match cstr_core::CString::new(bytes) {
        Ok(c) => Some(c.into_bytes_with_nul()),
        Err(_) => None,
    }
}

/// Converts a UTF-8 path into the nul-terminated byte string the native
/// decoder expects. A path with an interior nul byte can never cross the
/// boundary and is rejected.
pub fn path_to_c(path: &str) -> (r: Result<Vec<u8>, GraphicsError>)
    ensures
        path.spec_bytes().contains(0u8) ==> r == Err::<Vec<u8>, GraphicsError>(
            GraphicsError::InvalidPath,
        ),
        !path.spec_bytes().contains(0u8) ==> (r matches Ok(v) && v@ == path.spec_bytes().push(
            0u8,
        )),
{
    let bytes = path.as_bytes_vec();
    match c_string_bytes(bytes) {
        Option::Some(v) => Ok(v),
        Option::None => Err(GraphicsError::InvalidPath),
    }
}

} // verus!
