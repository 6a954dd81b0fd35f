//! Uploaded documents on their way to becoming jobs.
use vstd::prelude::*;
use vstd::string::StringSliceAdditionalSpecFns;
use vstd::utf8::{decode_utf8, encode_utf8};

use crate::external::hex_encode;
use crate::jobs::info::JobInfo;
use crate::jobs::options::{merged, or_keep, JobOptions, JobOptionsUpdate, Update};
use crate::text::lower_hex;

pub mod data;
pub mod upload;

verus! {

/// An uploaded document waiting to be processed into a job.
#[derive(Debug, Clone)]
pub struct DispatcherTask {
    pub user_id: u32,
    pub uid: Vec<u8>,
    pub info: JobInfo,
}

/// A waiting document as it is shown to its user.
#[derive(Debug, Clone)]
pub struct DispatcherTaskResponse {
    pub uid: String,
    pub filename: String,
    pub color: bool,
}

impl DispatcherTaskResponse {
    pub fn from(task: &DispatcherTask) -> (res: DispatcherTaskResponse)
        ensures
            res.uid@ == lower_hex(task.uid@),
            res.filename@ == task.info.filename@,
            res.color == task.info.color,
    {
        DispatcherTaskResponse {
            uid: hex_encode(task.uid.as_slice()),
            filename: task.info.filename.clone(),
            color: task.info.color,
        }
    }
}

/// The tasks of one user, in queue order.
pub open spec fn tasks_of_user(queue: Seq<DispatcherTask>, user_id: u32) -> Seq<DispatcherTask>
    decreases queue.len(),
{
    if queue.len() == 0 {
        Seq::empty()
    } else if queue.last().user_id == user_id {
        tasks_of_user(queue.drop_last(), user_id).push(queue.last())
    } else {
        tasks_of_user(queue.drop_last(), user_id)
    }
}

pub open spec fn shows(response: DispatcherTaskResponse, task: DispatcherTask) -> bool {
    &&& response.uid@ == lower_hex(task.uid@)
    &&& response.filename@ == task.info.filename@
    &&& response.color == task.info.color
}

/// The waiting documents of a user.
pub fn get_dispatcher_queue(user_id: u32, queue: &Vec<DispatcherTask>) -> (res: Vec<
    DispatcherTaskResponse,
>)
    ensures
        res@.len() == tasks_of_user(queue@, user_id).len(),
        forall|k: int|
            0 <= k < res@.len() ==> shows(#[trigger] res@[k], tasks_of_user(queue@, user_id)[k]),
{
    let mut res: Vec<DispatcherTaskResponse> = Vec::new();
    let mut i: usize = 0;
    assert(queue@.take(0) =~= Seq::<DispatcherTask>::empty());
    while i < queue.len()
        invariant
            i <= queue.len(),
            res@.len() == tasks_of_user(queue@.take(i as int), user_id).len(),
            forall|k: int|
                0 <= k < res@.len() ==> shows(
                    #[trigger] res@[k],
                    tasks_of_user(queue@.take(i as int), user_id)[k],
                ),
        decreases queue.len() - i,
    {
        assert(queue@.take(i + 1).drop_last() =~= queue@.take(i as int));
        assert(queue@.take(i + 1).last() == queue@[i as int]);
        if queue[i].user_id == user_id {
            let response = DispatcherTaskResponse::from(&queue[i]);
            res.push(response);
        }
        i = i + 1;
    }
    assert(queue@.take(queue.len() as int) =~= queue@);
    res
}

/// The name a document is stored under: names of 80 bytes or more are cut to
/// their first 79 bytes and marked with `...`; no name gives the empty name.
pub open spec fn shortened_filename(filename: Option<Seq<char>>) -> Seq<char> {
    match filename {
        None => Seq::empty(),
        Some(name) => if encode_utf8(name).len() < 80 {
            name
        } else {
            decode_utf8(encode_utf8(name).take(79)) + "..."@
        },
    }
}

/// The name is cut at a character boundary.
pub open spec fn filename_cut_is_clean(filename: Option<Seq<char>>) -> bool {
    filename matches Some(name) ==> (encode_utf8(name).len() >= 80
        ==> vstd::utf8::is_char_boundary(encode_utf8(name), 79))
}

pub open spec fn name_view(filename: Option<String>) -> Option<Seq<char>> {
    match filename {
        Some(f) => Some(f@),
        None => None,
    }
}

/// The name under which an upload is queued.
pub fn shorten_filename(filename: Option<String>) -> (res: String)
    requires
        filename_cut_is_clean(name_view(filename)),
    ensures
        res@ == shortened_filename(name_view(filename)),
{
    match filename {
        None => String::new(),
        Some(name) => {
            let text = name.as_str();
            let bytes = text.as_bytes();
            if bytes.len() < 80 {
                assert(encode_utf8(name@).len() < 80);
                name
            } else {
                let (head, _tail) = text.split_at(79);
                proof {
                    vstd::utf8::encode_utf8_decode_utf8(head@);
                    assert(text@ == name@);
                    assert(head.spec_bytes() =~= encode_utf8(name@).take(79));
                    assert(decode_utf8(encode_utf8(name@).take(79)) == head@);
                }
                let mut short = String::from_str(head);
                short.append("...");
                short
            }
        },
    }
}

/// The level of processing an upload gets when it asks for none.
pub const DEFAULT_PREPROCESS: u8 = 1;

/// The level of processing with which a job is dispatched again as an image.
pub const IMAGE_PREPROCESS: u8 = 2;

/// The name a processed document is filed under: the name it was uploaded
/// with, or its title when it came without one.
pub fn dispatched_filename(filename: String, title: String) -> (res: String)
    ensures
        res@ == if filename@.len() == 0 {
            title@
        } else {
            filename@
        },
{
    if filename.as_str().unicode_len() == 0 {
        title
    } else {
        filename
    }
}

/// The choices an upload makes for its job, as an update of the options.
pub open spec fn upload_choices(
    keep: Option<bool>,
    a3: Option<bool>,
    duplex: Option<u8>,
    copies: Option<u16>,
) -> JobOptionsUpdate {
    JobOptionsUpdate {
        duplex,
        copies,
        collate: None,
        keep,
        a3,
        nup: None,
        nuppageorder: None,
        range: None,
    }
}

/// The options after an upload's choices: each choice given replaces the
/// option, the colour and the display name included.
pub open spec fn with_upload_choices(
    base: JobOptions,
    keep: Option<bool>,
    a3: Option<bool>,
    duplex: Option<u8>,
    color: Option<bool>,
    copies: Option<u16>,
    displayname: Option<String>,
) -> JobOptions {
    JobOptions {
        color: or_keep(color, base.color),
        displayname: or_keep(displayname, base.displayname),
        ..merged(base, upload_choices(keep, a3, duplex, copies))
    }
}

/// The options of a processed document: those its user has stored, or the
/// defaults when the user has stored none, with the choices of the upload.
pub fn dispatched_options(
    stored: Option<JobOptions>,
    keep: Option<bool>,
    a3: Option<bool>,
    duplex: Option<u8>,
    color: Option<bool>,
    copies: Option<u16>,
    displayname: Option<String>,
) -> (res: JobOptions)
    ensures
        match stored {
            Some(o) => res == with_upload_choices(o, keep, a3, duplex, color, copies, displayname),
            None => {
                &&& res.duplex == or_keep(duplex, 0u8)
                &&& res.copies == or_keep(copies, 1u16)
                &&& !res.collate
                &&& res.keep == or_keep(keep, false)
                &&& res.a3 == or_keep(a3, false)
                &&& res.nup == 1
                &&& res.nuppageorder == 0
                &&& res.range@ == Seq::<char>::empty()
                &&& res.color == or_keep(color, false)
                &&& res.displayname@ == match displayname {
                    Some(d) => d@,
                    None => Seq::<char>::empty(),
                }
            },
        },
{
    let mut options = match stored {
        Some(o) => o,
        None => JobOptions::default(),
    };
    options.merge(
        JobOptionsUpdate {
            duplex,
            copies,
            collate: None,
            keep,
            a3,
            nup: None,
            nuppageorder: None,
            range: None,
        },
    );
    if let Some(c) = color {
        options.color = c;
    }
    if let Some(d) = displayname {
        options.displayname = d;
    }
    options
}

/// An upload waiting in the dispatcher's queue: its owner, the identifier it
/// is stored under, the name it came with, the level of processing and the
/// choices it makes for its job.
#[derive(Debug, Clone)]
pub struct DispatchRequest {
    pub user_id: u32,
    pub uid: Vec<u8>,
    pub filename: String,
    pub preprocess: u8,
    pub keep: Option<bool>,
    pub a3: Option<bool>,
    pub color: Option<bool>,
    pub duplex: Option<u8>,
    pub copies: Option<u16>,
    pub displayname: Option<String>,
}

/// The request that queues an upload stored under `uid`, and the identifier
/// in hexadecimal that the uploader gets back: the name is shortened and also
/// becomes the job's display name, and the level of processing defaults to
/// `DEFAULT_PREPROCESS`.
pub fn start_dispatch(
    user_id: u32,
    uid: Vec<u8>,
    filename: Option<String>,
    preprocess: Option<u8>,
    keep: Option<bool>,
    a3: Option<bool>,
    color: Option<bool>,
    duplex: Option<u8>,
    copies: Option<u16>,
) -> (res: (DispatchRequest, String))
    requires
        filename_cut_is_clean(name_view(filename)),
    ensures
        res.0.user_id == user_id,
        res.0.uid@ == uid@,
        res.0.filename@ == shortened_filename(name_view(filename)),
        res.0.displayname matches Some(d) && d@ == res.0.filename@,
        res.0.preprocess == or_keep(preprocess, DEFAULT_PREPROCESS),
        res.0.keep == keep,
        res.0.a3 == a3,
        res.0.color == color,
        res.0.duplex == duplex,
        res.0.copies == copies,
        res.1@ == lower_hex(uid@),
{
    let name = shorten_filename(filename);
    let displayname = Some(name.clone());
    let hex_uid = hex_encode(uid.as_slice());
    let preprocess = match preprocess {
        Some(p) => p,
        None => DEFAULT_PREPROCESS,
    };
    (
        DispatchRequest {
            user_id,
            uid,
            filename: name,
            preprocess,
            keep,
            a3,
            color,
            duplex,
            copies,
            displayname,
        },
        hex_uid,
    )
}

/// Whatever options the user has stored, each choice the upload makes is the
/// job's: a given keep, paper, duplex, colour, copy count or display name
/// replaces the stored one, a choice not made keeps it, and the options an
/// upload cannot choose stay as stored.
pub proof fn lemma_upload_choices_win(
    base: JobOptions,
    keep: Option<bool>,
    a3: Option<bool>,
    duplex: Option<u8>,
    color: Option<bool>,
    copies: Option<u16>,
    displayname: Option<String>,
)
    ensures
        keep matches Some(v) ==> with_upload_choices(base, keep, a3, duplex, color, copies, displayname).keep == v,
        keep is None ==> with_upload_choices(base, keep, a3, duplex, color, copies, displayname).keep == base.keep,
        a3 matches Some(v) ==> with_upload_choices(base, keep, a3, duplex, color, copies, displayname).a3 == v,
        a3 is None ==> with_upload_choices(base, keep, a3, duplex, color, copies, displayname).a3 == base.a3,
        duplex matches Some(v) ==> with_upload_choices(base, keep, a3, duplex, color, copies, displayname).duplex == v,
        duplex is None ==> with_upload_choices(base, keep, a3, duplex, color, copies, displayname).duplex == base.duplex,
        color matches Some(v) ==> with_upload_choices(base, keep, a3, duplex, color, copies, displayname).color == v,
        color is None ==> with_upload_choices(base, keep, a3, duplex, color, copies, displayname).color == base.color,
        copies matches Some(v) ==> with_upload_choices(base, keep, a3, duplex, color, copies, displayname).copies == v,
        copies is None ==> with_upload_choices(base, keep, a3, duplex, color, copies, displayname).copies == base.copies,
        displayname matches Some(v) ==> with_upload_choices(base, keep, a3, duplex, color, copies, displayname).displayname == v,
        displayname is None ==> with_upload_choices(base, keep, a3, duplex, color, copies, displayname).displayname == base.displayname,
        with_upload_choices(base, keep, a3, duplex, color, copies, displayname).collate == base.collate,
        with_upload_choices(base, keep, a3, duplex, color, copies, displayname).nup == base.nup,
        with_upload_choices(base, keep, a3, duplex, color, copies, displayname).nuppageorder == base.nuppageorder,
        with_upload_choices(base, keep, a3, duplex, color, copies, displayname).range == base.range,
{
}

} // verus!
