//! The tasks a printer's worker runs and the commands it takes.
use vstd::prelude::*;

use crate::jobs::options::JobOptionsUpdate;

verus! {

/// A user's session at a printer, named by random bytes.
#[derive(Debug, Clone)]
pub struct WorkerTask {
    pub user_id: u32,
    pub uid: Vec<u8>,
}

/// What a client tells the worker of its session.
#[derive(Debug, Clone)]
pub enum WorkerCommand {
    /// Print the job with this id, with these options changed for the print.
    Print(u32, Option<JobOptionsUpdate>),
    /// End the session.
    Cancel,
    /// The client is still there.
    HeartBeat,
    /// The client left; end the session once the queued jobs are printed.
    Hungup,
}

} // verus!
