//! A job as it is sent to clients.
use vstd::prelude::*;

use crate::jobs::info::JobInfo;
use crate::jobs::options::JobOptions;

verus! {

/// A job with its owner and creation time (seconds since the epoch).
#[derive(Debug, Clone)]
pub struct JobResponse {
    pub id: u32,
    pub user_id: u32,
    pub timestamp: i64,
    pub info: JobInfo,
    pub options: JobOptions,
}

} // verus!
