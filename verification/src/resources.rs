//! Validation of loaded shader source.
//!
//! Reading the resource file is the host's work; what comes back is checked
//! here before it is handed to the driver: source text is passed to the
//! driver as a NUL-terminated string, so content with an interior NUL byte
//! is not usable and is rejected as a resource error rather than truncated.

use vstd::prelude::*;
use crate::error::{RenderError, ResourceErrorKind};

verus! {

/// Whether `bytes` is usable as shader source text: no interior NUL byte.
pub open spec fn source_usable(bytes: Seq<u8>) -> bool {
    forall|i: int| 0 <= i < bytes.len() ==> bytes[i] != 0u8
}

/// Checks the bytes read for resource `name`: accepted exactly when they
/// contain no NUL byte, and rejected otherwise with a resource error that
/// names the resource and says its content is unusable.
pub fn check_source_bytes(name: &str, bytes: &Vec<u8>) -> (r: Result<(), RenderError>)
    ensures
        r is Ok <==> source_usable(bytes@),
        !source_usable(bytes@) ==> (r matches Err(RenderError::ResourceError { name: n, kind })
            && n@ == name@ && kind == ResourceErrorKind::ContainsNul),
{
    let mut i: usize = 0;
    while i < bytes.len()
        invariant
            i <= bytes@.len(),
            forall|j: int| 0 <= j < i ==> bytes@[j] != 0u8,
        decreases bytes@.len() - i,
    {
        if bytes[i] == 0u8 {
            return Err(
                RenderError::ResourceError {
                    name: name.to_owned(),
                    kind: ResourceErrorKind::ContainsNul,
                },
            );
        }
        i = i + 1;
    }
    Ok(())
}

} // verus!
