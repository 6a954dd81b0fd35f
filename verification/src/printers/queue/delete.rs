//! Ending a printer session on request.
use vstd::prelude::*;

use crate::printers::queue::task::WorkerTask;

verus! {

/// Why a request on a printer queue is refused.
#[derive(Debug, Clone, Copy, PartialEq, Eq, Structural)]
pub enum QueueRefusal {
    /// 404: no such printer.
    DeviceNotFound,
    /// 424: the printer runs no session.
    TaskNotFound,
    /// 401: the session belongs to someone else.
    Unauthorized,
    /// 423: another user holds the printer.
    QueueLocked,
}

impl QueueRefusal {
    /// The HTTP status code of the refusal.
    pub fn code(&self) -> (res: u16)
        ensures
            res == match self {
                QueueRefusal::DeviceNotFound => 404u16,
                QueueRefusal::TaskNotFound => 424u16,
                QueueRefusal::Unauthorized => 401u16,
                QueueRefusal::QueueLocked => 423u16,
            },
    {
        match self {
            QueueRefusal::DeviceNotFound => 404,
            QueueRefusal::TaskNotFound => 424,
            QueueRefusal::Unauthorized => 401,
            QueueRefusal::QueueLocked => 423,
        }
    }
}

/// A user ends her own session: the identifier of the session to cancel,
/// or why not (unknown printer, no session, someone else's session).
pub fn delete_queue(user_id: u32, processing: Option<&Vec<WorkerTask>>) -> (res: Result<
    Vec<u8>,
    QueueRefusal,
>)
    ensures
        processing is None ==> res == Err::<Vec<u8>, QueueRefusal>(QueueRefusal::DeviceNotFound),
        processing matches Some(p) ==> {
            &&& p.len() == 0 ==> res == Err::<Vec<u8>, QueueRefusal>(QueueRefusal::TaskNotFound)
            &&& p.len() > 0 && p[0].user_id == user_id ==> (res matches Ok(uid) && uid@
                == p[0].uid@)
            &&& p.len() > 0 && p[0].user_id != user_id ==> res == Err::<Vec<u8>, QueueRefusal>(
                QueueRefusal::Unauthorized,
            )
        },
{
    match processing {
        None => Err(QueueRefusal::DeviceNotFound),
        Some(p) => {
            if p.len() == 0 {
                return Err(QueueRefusal::TaskNotFound);
            }
            if p[0].user_id == user_id {
                Ok(copy_bytes(&p[0].uid))
            } else {
                Err(QueueRefusal::Unauthorized)
            }
        },
    }
}

/// The administration ends whatever session a printer runs.
pub fn delete_queue_as_admin(processing: Option<&Vec<WorkerTask>>) -> (res: Result<
    Vec<u8>,
    QueueRefusal,
>)
    ensures
        processing is None ==> res == Err::<Vec<u8>, QueueRefusal>(QueueRefusal::DeviceNotFound),
        processing matches Some(p) ==> {
            &&& p.len() == 0 ==> res == Err::<Vec<u8>, QueueRefusal>(QueueRefusal::TaskNotFound)
            &&& p.len() > 0 ==> (res matches Ok(uid) && uid@ == p[0].uid@)
        },
{
    match processing {
        None => Err(QueueRefusal::DeviceNotFound),
        Some(p) => {
            if p.len() == 0 {
                Err(QueueRefusal::TaskNotFound)
            } else {
                Ok(copy_bytes(&p[0].uid))
            }
        },
    }
}

pub(crate) fn copy_bytes(bytes: &Vec<u8>) -> (res: Vec<u8>)
    ensures
        res@ == bytes@,
{
    let mut res: Vec<u8> = Vec::new();
    let mut i: usize = 0;
    while i < bytes.len()
        invariant
            i <= bytes.len(),
            res@ =~= bytes@.take(i as int),
        decreases bytes.len() - i,
    {
        res.push(bytes[i]);
        i = i + 1;
    }
    assert(bytes@.take(bytes.len() as int) =~= bytes@);
    res
}

} // verus!
