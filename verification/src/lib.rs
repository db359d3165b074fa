//! Ingestion of payroll batch documents: reading a document into
//! transaction blocks, resolving the records of each block against the local
//! store and the payment processor, and reporting on what was recorded.

use vstd::prelude::*;

pub mod endpoints;
pub mod entities;
pub mod ingest;
pub mod laws;
pub mod schema;
pub mod text;
pub mod utility;

verus! {

/// The largest upload that is taken where nothing else is set: 128 MiB.
pub const DEFAULT_MAX_UPLOAD: usize = 134217728;

/// The largest upload that a setting asks for: the number that it holds
/// where it holds one that fits, else the default.
pub open spec fn max_upload_of(setting: Option<&str>) -> usize {
    match setting {
        Some(text) => match text::u64_value(text@) {
            Some(size) => if size <= usize::MAX {
                size as usize
            } else {
                DEFAULT_MAX_UPLOAD
            },
            None => DEFAULT_MAX_UPLOAD,
        },
        None => DEFAULT_MAX_UPLOAD,
    }
}

/// Reads the largest upload to take from its setting.
pub fn get_max_upload_size(setting: Option<&str>) -> (r: usize)
    ensures
        r == max_upload_of(setting),
{
    match setting {
        Some(text) => match text::parse_u64(text) {
            Some(size) => if size <= usize::MAX as u64 {
                size as usize
            } else {
                DEFAULT_MAX_UPLOAD
            },
            None => DEFAULT_MAX_UPLOAD,
        },
        None => DEFAULT_MAX_UPLOAD,
    }
}

} // verus!
