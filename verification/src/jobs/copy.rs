//! Copying a job: as it is, or processed again as an image.
use vstd::prelude::*;

verus! {

/// What a request to copy a job leads to.
#[derive(Debug, Clone, Copy, PartialEq, Eq, Structural)]
pub enum CopyOutcome {
    /// The user has no job with that id.
    NotFound,
    /// The document is processed again, as an image.
    Redispatch,
    /// The job is stored a second time as it is.
    Duplicate,
}

impl CopyOutcome {
    /// The status code of the answer.
    pub fn code(&self) -> (res: u16)
        ensures
            res == match *self {
                CopyOutcome::NotFound => 404u16,
                CopyOutcome::Redispatch => 202u16,
                CopyOutcome::Duplicate => 200u16,
            },
    {
        match self {
            CopyOutcome::NotFound => 404,
            CopyOutcome::Redispatch => 202,
            CopyOutcome::Duplicate => 200,
        }
    }

    /// The reason given with the status code.
    pub fn reason(&self) -> (res: &'static str)
        ensures
            res@ == match *self {
                CopyOutcome::NotFound => "Job not found"@,
                CopyOutcome::Redispatch => "Started Processing"@,
                CopyOutcome::Duplicate => "OK"@,
            },
    {
        match self {
            CopyOutcome::NotFound => "Job not found",
            CopyOutcome::Redispatch => "Started Processing",
            CopyOutcome::Duplicate => "OK",
        }
    }
}

/// What copying a job does: nothing for a job that was not found; otherwise
/// a plain copy, unless the request asks for an image.
pub fn copy_outcome(found: bool, image: Option<bool>) -> (res: CopyOutcome)
    ensures
        res == if !found {
            CopyOutcome::NotFound
        } else if image == Some(true) {
            CopyOutcome::Redispatch
        } else {
            CopyOutcome::Duplicate
        },
{
    if !found {
        CopyOutcome::NotFound
    } else {
        let image = match image {
            Some(b) => b,
            None => false,
        };
        if image {
            CopyOutcome::Redispatch
        } else {
            CopyOutcome::Duplicate
        }
    }
}

} // verus!
