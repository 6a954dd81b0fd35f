//! What is known of a job's document.
use vstd::prelude::*;

verus! {

/// The document of a job: its name, page count, colour, paper size and the
/// password that opens it.
#[derive(Debug, Clone)]
pub struct JobInfo {
    pub filename: String,
    pub pagecount: u16,
    pub color: bool,
    pub a3: bool,
    pub password: String,
}

impl JobInfo {
    /// A fresh description: the page count is not known yet and the paper is A4.
    pub fn new(filename: &str, password: &str, color: bool) -> (res: JobInfo)
        ensures
            res.filename@ == filename@,
            res.password@ == password@,
            res.pagecount == 0,
            res.color == color,
            !res.a3,
    {
        JobInfo {
            filename: filename.to_owned(),
            pagecount: 0,
            color,
            a3: false,
            password: password.to_owned(),
        }
    }
}

} // verus!
