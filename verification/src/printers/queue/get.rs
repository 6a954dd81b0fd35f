//! What the administration sees of a printer's queue.
use vstd::prelude::*;

use crate::external::hex_encode;
use crate::printers::queue::task::WorkerTask;
use crate::text::lower_hex;

verus! {

/// A session as it is shown: its user and its identifier in hexadecimal.
#[derive(Debug, Clone)]
pub struct WorkerTaskResponse {
    pub user_id: u32,
    pub uid: String,
}

/// The waiting and the running sessions of a printer.
#[derive(Debug, Clone)]
pub struct WorkerQueueResponse {
    pub incoming: Vec<WorkerTaskResponse>,
    pub processing: Vec<WorkerTaskResponse>,
}

impl WorkerTaskResponse {
    pub fn from(task: &WorkerTask) -> (res: WorkerTaskResponse)
        ensures
            res.user_id == task.user_id,
            res.uid@ == lower_hex(task.uid@),
    {
        WorkerTaskResponse { user_id: task.user_id, uid: hex_encode(task.uid.as_slice()) }
    }
}

/// The session a printer runs, if any; `None` for an unknown printer
/// (`processing` is `None`).
pub fn get_queue_as_admin(processing: Option<&Vec<WorkerTask>>) -> (res: Option<
    Option<WorkerTaskResponse>,
>)
    ensures
        processing is None ==> res is None,
        processing matches Some(p) ==> {
            &&& res matches Some(shown)
            &&& p.len() == 0 ==> shown is None
            &&& p.len() > 0 ==> (shown matches Some(r) && r.user_id == p[0].user_id && r.uid@
                == lower_hex(p[0].uid@))
        },
{
    match processing {
        None => None,
        Some(p) => {
            if p.len() == 0 {
                Some(None)
            } else {
                Some(Some(WorkerTaskResponse::from(&p[0])))
            }
        },
    }
}

} // verus!
