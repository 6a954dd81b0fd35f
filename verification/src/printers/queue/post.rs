//! Joining a printer: sending print jobs and keeping the session alive.
use vstd::prelude::*;

use crate::external::hex_encode;
use crate::jobs::options::JobOptionsUpdate;
use crate::printers::queue::delete::QueueRefusal;
use crate::printers::queue::task::{WorkerCommand, WorkerTask};
use crate::text::lower_hex;

verus! {

/// What to do for a request on a printer queue: the session it goes to (in
/// hexadecimal), the session to create first if any, and the commands to send.
#[derive(Debug, Clone)]
pub struct QueuePost {
    pub uid_hex: String,
    pub new_task: Option<WorkerTask>,
    pub commands: Vec<WorkerCommand>,
}

/// The commands a request sends: the print command (with the request's
/// options) when a job is given, and a hang-up after it for a session created
/// just for it; a heart beat for an existing session when no job is given.
pub open spec fn queue_commands(
    id: Option<u32>,
    options: Option<JobOptionsUpdate>,
    created: bool,
) -> Seq<WorkerCommand> {
    match id {
        Some(job) => if created {
            seq![WorkerCommand::Print(job, options), WorkerCommand::Hungup]
        } else {
            seq![WorkerCommand::Print(job, options)]
        },
        None => if created {
            Seq::empty()
        } else {
            seq![WorkerCommand::HeartBeat]
        },
    }
}

/// The answer to a user's request on a printer whose running sessions are
/// `processing`: her own session is reused; a session of another user locks
/// the printer; with none a new session named `fresh_uid` is created.
pub open spec fn queue_answer(
    user_id: u32,
    id: Option<u32>,
    options: Option<JobOptionsUpdate>,
    processing: Seq<WorkerTask>,
    fresh_uid: Seq<u8>,
    res: Result<QueuePost, QueueRefusal>,
) -> bool {
    if processing.len() > 0 && processing[0].user_id == user_id {
        res matches Ok(post) && {
            &&& post.uid_hex@ == lower_hex(processing[0].uid@)
            &&& post.new_task is None
            &&& post.commands@ == queue_commands(id, options, false)
        }
    } else if processing.len() > 0 {
        res == Err::<QueuePost, QueueRefusal>(QueueRefusal::QueueLocked)
    } else {
        res matches Ok(post) && {
            &&& post.uid_hex@ == lower_hex(fresh_uid)
            &&& post.new_task matches Some(t) && t.user_id == user_id && t.uid@ == fresh_uid
            &&& post.commands@ == queue_commands(id, options, true)
        }
    }
}

/// A user's request on a printer whose running sessions are `processing`;
/// `fresh_uid` names a session created for it.
pub fn post_to_queue_handler(
    user_id: u32,
    id: Option<u32>,
    options: Option<JobOptionsUpdate>,
    processing: &Vec<WorkerTask>,
    fresh_uid: Vec<u8>,
) -> (res: Result<QueuePost, QueueRefusal>)
    ensures
        queue_answer(user_id, id, options, processing@, fresh_uid@, res),
{
    let created: bool;
    let uid_hex: String;
    let mut new_task: Option<WorkerTask> = None;
    if processing.len() > 0 && processing[0].user_id == user_id {
        uid_hex = hex_encode(processing[0].uid.as_slice());
        created = false;
    } else {
        if processing.len() > 0 {
            return Err(QueueRefusal::QueueLocked);
        }
        uid_hex = hex_encode(fresh_uid.as_slice());
        new_task = Some(WorkerTask { user_id, uid: fresh_uid });
        created = true;
    }
    let mut commands: Vec<WorkerCommand> = Vec::new();
    let ghost opts = options;
    match id {
        Some(job) => {
            commands.push(WorkerCommand::Print(job, options));
            if created {
                commands.push(WorkerCommand::Hungup);
            }
        },
        None => {
            if !created {
                commands.push(WorkerCommand::HeartBeat);
            }
        },
    }
    assert(commands@ =~= queue_commands(id, opts, created));
    Ok(QueuePost { uid_hex, new_task, commands })
}

/// A request on a printer queue: an unknown printer (`processing` is `None`)
/// is refused, otherwise as `post_to_queue_handler`.
pub fn post_to_queue(
    user_id: u32,
    id: Option<u32>,
    options: Option<JobOptionsUpdate>,
    processing: Option<&Vec<WorkerTask>>,
    fresh_uid: Vec<u8>,
) -> (res: Result<QueuePost, QueueRefusal>)
    ensures
        processing is None ==> res == Err::<QueuePost, QueueRefusal>(QueueRefusal::DeviceNotFound),
        processing matches Some(p) ==> queue_answer(user_id, id, options, p@, fresh_uid@, res),
{
    match processing {
        None => Err(QueueRefusal::DeviceNotFound),
        Some(p) => post_to_queue_handler(user_id, id, options, p, fresh_uid),
    }
}

} // verus!
