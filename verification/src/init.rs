//! What `aegis init` decides before it writes an example file.
use vstd::prelude::*;

use crate::error::{fails_with, AegisError};

verus! {

/// Whether `aegis init` may write the file at `path`: a file that already exists is
/// kept unless `force` is set.
pub fn init_write_allowed(path: &str, exists: bool, force: bool) -> (r: Result<(), AegisError>)
    ensures
        r is Err <==> exists && !force,
        r matches Err(e) ==> fails_with(
            e,
            path@ + " already exists; rerun with --force to overwrite"@,
        ),
{
    if exists && !force {
        let mut m = path.to_string();
        m.append(" already exists; rerun with --force to overwrite");
        return Err(AegisError::new(m));
    }
    Ok(())
}

} // verus!
