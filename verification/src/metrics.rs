//! Usage-metric rows. The metric store itself is a durable table kept by
//! the calling layer; the library only defines what a lookup returns.
use vstd::prelude::*;

verus! {

/// Who uploaded the file at `path`, and when.
#[derive(Debug)]
pub struct GetUploadResult {
    pub user: String,
    pub path: String,
    pub timestamp: i64,
}

} // verus!
