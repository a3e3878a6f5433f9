//! Turning file contents into text the backend can take.

use vstd::prelude::*;
use crate::shaders::{loaded_source, source_result_view, ShaderSource, SourceError};

verus! {

/// Validates the contents of a file as terminator-free text. `read` is what
/// reading the file gave, `None` if it could not be read.
pub fn read_file_into_cstring(read: Option<Vec<u8>>) -> (r: Result<ShaderSource, SourceError>)
    ensures
        source_result_view(r) == loaded_source(
            match read {
                Some(b) => Some(b@),
                None => None,
            },
        ),
{
    match read {
        None => Err(SourceError::IoError),
        Some(bytes) => ShaderSource::from_bytes(bytes),
    }
}

} // verus!
