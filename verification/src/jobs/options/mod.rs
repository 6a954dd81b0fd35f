//! Print options of a job and how updates are merged into them.
use vstd::prelude::*;

pub mod pagerange;
pub mod range_laws;

use crate::jobs::options::pagerange::{
    normalize_range, page_range, range_is_well_numbered, renderable,
};
use crate::jobs::options::range_laws::normalized;

verus! {

/// How a job is printed.
#[derive(Debug, Clone)]
pub struct JobOptions {
    /// 0: one-sided, 1: long edge binding, 2: short edge binding.
    pub duplex: u8,
    pub copies: u16,
    pub collate: bool,
    /// Keep the job after it is printed.
    pub keep: bool,
    pub a3: bool,
    /// Pages per sheet.
    pub nup: u8,
    /// 0: right then down, 1: down then right, 2: left then down, 3: down then left.
    pub nuppageorder: u8,
    /// The pages to print, in the normal form of a page range.
    pub range: String,
    /// Print in colour (at the colour page price).
    pub color: bool,
    /// The name the job is shown under.
    pub displayname: String,
}

impl Default for JobOptions {
    /// One-sided, one copy, not collated, not kept, A4, one page per sheet,
    /// every page, black and white, no display name.
    fn default() -> (res: JobOptions)
        ensures
            res.duplex == 0,
            res.copies == 1,
            !res.collate,
            !res.keep,
            !res.a3,
            res.nup == 1,
            res.nuppageorder == 0,
            res.range@ == Seq::<char>::empty(),
            !res.color,
            res.displayname@ == Seq::<char>::empty(),
    {
        JobOptions {
            duplex: 0,
            copies: 1,
            collate: false,
            keep: false,
            a3: false,
            nup: 1,
            nuppageorder: 0,
            range: String::new(),
            color: false,
            displayname: String::new(),
        }
    }
}

/// A single option value as clients send it.
#[derive(Debug)]
pub enum Value {
    S(String),
    I(u16),
    B(bool),
}

/// A change of some options; the options left `None` stay as they are.
#[derive(Debug, Clone)]
pub struct JobOptionsUpdate {
    pub duplex: Option<u8>,
    pub copies: Option<u16>,
    pub collate: Option<bool>,
    pub keep: Option<bool>,
    pub a3: Option<bool>,
    pub nup: Option<u8>,
    pub nuppageorder: Option<u8>,
    pub range: Option<String>,
}

pub open spec fn or_keep<T>(update: Option<T>, current: T) -> T {
    match update {
        Some(v) => v,
        None => current,
    }
}

/// The options after an update: each given value replaces the current one.
pub open spec fn merged(options: JobOptions, update: JobOptionsUpdate) -> JobOptions {
    JobOptions {
        duplex: or_keep(update.duplex, options.duplex),
        copies: or_keep(update.copies, options.copies),
        collate: or_keep(update.collate, options.collate),
        keep: or_keep(update.keep, options.keep),
        a3: or_keep(update.a3, options.a3),
        nup: or_keep(update.nup, options.nup),
        nuppageorder: or_keep(update.nuppageorder, options.nuppageorder),
        range: or_keep(update.range, options.range),
        color: options.color,
        displayname: options.displayname,
    }
}

/// Something that takes updates of job options.
pub trait Update {
    fn merge(&mut self, update: JobOptionsUpdate);
}

impl Update for JobOptions {
    /// Replaces every option that the update gives.
    fn merge(&mut self, update: JobOptionsUpdate)
        ensures
            *final(self) == merged(*old(self), update),
    {
        if let Some(duplex) = update.duplex {
            self.duplex = duplex;
        }
        if let Some(copies) = update.copies {
            self.copies = copies;
        }
        if let Some(collate) = update.collate {
            self.collate = collate;
        }
        if let Some(keep) = update.keep {
            self.keep = keep;
        }
        if let Some(a3) = update.a3 {
            self.a3 = a3;
        }
        if let Some(nup) = update.nup {
            self.nup = nup;
        }
        if let Some(nuppageorder) = update.nuppageorder {
            self.nuppageorder = nuppageorder;
        }
        if let Some(range) = update.range {
            self.range = range;
        }
    }
}


/// The options stored when a client updates the options of a job whose
/// document has `pagecount` pages: the update is merged, then the page range
/// is written in normal form (empty when it selects no page).
pub fn update_options(options: JobOptions, update: JobOptionsUpdate, pagecount: u16) -> (res:
    JobOptions)
    requires
        range_is_well_numbered(merged(options, update).range@),
        page_range(merged(options, update).range@, pagecount as usize) matches Some(pages)
            ==> renderable(pages),
    ensures
        res == (JobOptions { range: res.range, ..merged(options, update) }),
        res.range@ == normalized(merged(options, update).range@, pagecount as usize),
{
    let mut options = options;
    options.merge(update);
    let range = normalize_range(options.range.as_str(), pagecount as usize);
    options.range = range;
    options
}


/// The update that changes nothing.
pub open spec fn empty_update() -> JobOptionsUpdate {
    JobOptionsUpdate {
        duplex: None,
        copies: None,
        collate: None,
        keep: None,
        a3: None,
        nup: None,
        nuppageorder: None,
        range: None,
    }
}

/// Merging an update twice gives what merging it once gives, and the empty
/// update changes nothing.
pub proof fn lemma_merge_idempotent(options: JobOptions, update: JobOptionsUpdate)
    ensures
        merged(merged(options, update), update) == merged(options, update),
        merged(options, empty_update()) == options,
{
}

/// Merging an update replaces exactly the options it gives: each given
/// option becomes the job's, each option left `None` stays, and the colour
/// and the display name, which an update does not carry, stay too.
pub proof fn lemma_merge_replaces_given_options(options: JobOptions, update: JobOptionsUpdate)
    ensures
        update.duplex matches Some(v) ==> merged(options, update).duplex == v,
        update.duplex is None ==> merged(options, update).duplex == options.duplex,
        update.copies matches Some(v) ==> merged(options, update).copies == v,
        update.copies is None ==> merged(options, update).copies == options.copies,
        update.collate matches Some(v) ==> merged(options, update).collate == v,
        update.collate is None ==> merged(options, update).collate == options.collate,
        update.keep matches Some(v) ==> merged(options, update).keep == v,
        update.keep is None ==> merged(options, update).keep == options.keep,
        update.a3 matches Some(v) ==> merged(options, update).a3 == v,
        update.a3 is None ==> merged(options, update).a3 == options.a3,
        update.nup matches Some(v) ==> merged(options, update).nup == v,
        update.nup is None ==> merged(options, update).nup == options.nup,
        update.nuppageorder matches Some(v) ==> merged(options, update).nuppageorder == v,
        update.nuppageorder is None ==> merged(options, update).nuppageorder == options.nuppageorder,
        update.range matches Some(v) ==> merged(options, update).range == v,
        update.range is None ==> merged(options, update).range == options.range,
        merged(options, update).color == options.color,
        merged(options, update).displayname == options.displayname,
{
}

} // verus!
