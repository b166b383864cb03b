//! Export writer: validation for the one-off direct-path text-file export.
//!
//! The export path bypasses scope/kind addressing and the local/remote split
//! entirely; the only rule this core owns is that the target path must be
//! non-empty after trimming. The filesystem work — creating missing parent
//! directories and overwriting the file — is the caller's.

use vstd::prelude::*;

use crate::text::{trim_bounds, trim_seq};

verus! {

/// Validates an export path: it must be non-empty after trimming. Returns
/// the trimmed path the export file is to be written at.
pub fn validate_export_path(path: &str) -> (r: Result<String, String>)
    ensures
        r is Err <==> trim_seq(path@).len() == 0,
        r matches Err(m) ==> m@ == "Path is required"@,
        r matches Ok(p) ==> p@ == trim_seq(path@),
{
    let (lo, hi) = trim_bounds(path);
    if hi - lo == 0 {
        return Err(String::from_str("Path is required"));
    }
    Ok(String::from_str(path.substring_char(lo, hi)))
}

} // verus!
