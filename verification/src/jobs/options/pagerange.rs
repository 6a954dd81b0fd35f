//! The set of pages a job prints, read from a range expression such as
//! `1,3-4,7-10` and written back in normal form.
use vstd::prelude::*;

use crate::text::{
    chars_of, decimal, parse_unsigned, parse_unsigned_chars, push_decimal, split, split_chars,
    trim, trim_chars, views,
};
use crate::external::string_from_chars;
use crate::jobs::options::range_laws::{normal_form, normalized};

verus! {

/// The largest value of a `u32`.
pub open spec fn max_u32() -> nat {
    4294967295
}

/// A step written as a single page number.
pub open spec fn single_page(step: Seq<char>) -> Option<nat> {
    parse_unsigned(step, max_u32())
}

/// A step written as `from-to` (surrounding whitespace allowed): the pages it
/// spans, from the smaller number up to `to`.
pub open spec fn page_difference(step: Seq<char>) -> Option<(nat, nat)> {
    let parts = split(trim(step), '-');
    if parts.len() != 2 {
        None
    } else {
        match (parse_unsigned(parts[0], max_u32()), parse_unsigned(parts[1], max_u32())) {
            (Some(a), Some(b)) => Some((if a > b { b } else { a }, b)),
            _ => None,
        }
    }
}

/// Page `p` (counted from 1) is named by a step.
pub open spec fn step_names(step: Seq<char>, p: nat) -> bool {
    ||| single_page(step) == Some(p)
    ||| (page_difference(step) matches Some((lo, hi)) && lo <= p <= hi)
}

/// Page `p` is named by one of the steps.
pub open spec fn steps_name(steps: Seq<Seq<char>>, p: nat) -> bool {
    exists|i: int| 0 <= i < steps.len() && #[trigger] step_names(steps[i], p)
}

/// The comma separated steps of a range expression, after trimming it.
pub open spec fn range_steps(range: Seq<char>) -> Seq<Seq<char>> {
    split(trim(range), ',')
}

/// Page `p` is named by the range expression.
pub open spec fn range_names(range: Seq<char>, p: nat) -> bool {
    steps_name(range_steps(range), p)
}

/// The expressions that select every page: the empty one and `-`.
pub open spec fn selects_all(range: Seq<char>) -> bool {
    range.len() == 0 || range =~= seq!['-']
}

/// The page count as the `u32` that pages are compared with.
pub open spec fn page_limit(pagecount: usize) -> nat {
    pagecount as nat % 0x1_0000_0000
}

/// The pages that a range expression selects out of `pagecount` pages.
pub open spec fn selected_pages(range: Seq<char>, pagecount: usize) -> Seq<bool> {
    Seq::new(
        pagecount as nat,
        |i: int| i + 1 <= page_limit(pagecount) && range_names(range, (i + 1) as nat),
    )
}

pub open spec fn none_selected(pages: Seq<bool>) -> bool {
    forall|i: int| 0 <= i < pages.len() ==> !#[trigger] pages[i]
}

/// What `PageRange::new` gives: every page for the expressions that select
/// all, otherwise the named pages, and nothing when no page is named.
pub open spec fn page_range(range: Seq<char>, pagecount: usize) -> Option<Seq<bool>> {
    if selects_all(range) {
        Some(Seq::new(pagecount as nat, |i: int| true))
    } else if none_selected(selected_pages(range, pagecount)) {
        None
    } else {
        Some(selected_pages(range, pagecount))
    }
}

/// The range names no page 0 (page numbers count from 1).
pub open spec fn range_is_well_numbered(range: Seq<char>) -> bool {
    selects_all(range) || !range_names(range, 0)
}

/// Pages selected for printing, one flag per page of the document.
#[derive(Debug)]
pub struct PageRange {
    pages: Vec<bool>,
}

impl View for PageRange {
    type V = Seq<bool>;

    closed spec fn view(&self) -> Seq<bool> {
        self.pages@
    }
}

/// A difference step parsed from its text.
struct PageDifference {
    minuend: u32,
    subtrahend: u32,
}

impl PageDifference {
    /// Reads `from-to` with surrounding whitespace; `from` is lowered to `to`
    /// when it is larger.
    fn from_chars(difference: &Vec<char>) -> (res: Option<PageDifference>)
        ensures
            match page_difference(difference@) {
                Some((lo, hi)) => res matches Some(d) && d.minuend == lo && d.subtrahend == hi,
                None => res is None,
            },
    {
        let trimmed = trim_chars(difference);
        let split = split_chars(&trimmed, '-');
        if split.len() != 2 {
            return None;
        }
        assert(split[0]@ == views(split@)[0]);
        assert(split[1]@ == views(split@)[1]);
        let minuend = match parse_unsigned_chars(&split[0], 4294967295) {
            Some(v) => v,
            None => return None,
        };
        let subtrahend = match parse_unsigned_chars(&split[1], 4294967295) {
            Some(v) => v,
            None => return None,
        };
        let minuend = if minuend > subtrahend {
            subtrahend
        } else {
            minuend
        };
        Some(PageDifference { minuend: minuend as u32, subtrahend: subtrahend as u32 })
    }
}

/// Number of selected pages.
pub open spec fn count_selected(pages: Seq<bool>) -> nat
    decreases pages.len(),
{
    if pages.len() == 0 {
        0
    } else {
        count_selected(pages.drop_last()) + if pages.last() {
            1nat
        } else {
            0nat
        }
    }
}

impl PageRange {
    /// The number of pages that are printed.
    pub fn pagecount(&self) -> (res: usize)
        ensures
            res == count_selected(self@),
    {
        let mut count: usize = 0;
        let mut i: usize = 0;
        while i < self.pages.len()
            invariant
                i <= self.pages.len(),
                self@ == self.pages@,
                count == count_selected(self.pages@.take(i as int)),
                count <= i,
            decreases self.pages.len() - i,
        {
            assert(self.pages@.take(i + 1).drop_last() =~= self.pages@.take(i as int));
            if self.pages[i] {
                count = count + 1;
            }
            i = i + 1;
        }
        assert(self.pages@.take(self.pages.len() as int) =~= self.pages@);
        count
    }

    /// Reads a range expression for a document of `pagecount` pages.
    ///
    /// The empty expression and `-` select every page. Otherwise the
    /// expression is trimmed and split at commas; a step selects the page it
    /// names or, written `from-to`, the pages in between. Pages beyond the
    /// document are ignored, and `None` comes back when no page is left.
    pub fn new(range: &str, pagecount: usize) -> (res: Option<PageRange>)
        requires
            range_is_well_numbered(range@),
        ensures
            match page_range(range@, pagecount) {
                Some(pages) => res matches Some(r) && r@ =~= pages,
                None => res is None,
            },
    {
        let chars = chars_of(range);
        if chars.len() == 0 || (chars.len() == 1 && chars[0] == '-') {
            let mut all: Vec<bool> = Vec::new();
            let mut i: usize = 0;
            while i < pagecount
                invariant
                    i <= pagecount,
                    all@ =~= Seq::new(i as nat, |k: int| true),
                decreases pagecount - i,
            {
                all.push(true);
                i = i + 1;
            }
            return Some(PageRange { pages: all });
        }
        let trimmed = trim_chars(&chars);
        let steps = split_chars(&trimmed, ',');
        let ghost steps_v = range_steps(range@);
        let limit: u64 = (pagecount as u64) % 0x1_0000_0000;
        let mut pages: Vec<bool> = Vec::new();
        let mut i: usize = 0;
        while i < pagecount
            invariant
                i <= pagecount,
                pages@ =~= Seq::new(i as nat, |k: int| false),
            decreases pagecount - i,
        {
            pages.push(false);
            i = i + 1;
        }
        assert(steps_v.take(0) =~= Seq::<Seq<char>>::empty());
        let mut k: usize = 0;
        while k < steps.len()
            invariant
                k <= steps.len(),
                views(steps@) == steps_v,
                steps_v == range_steps(range@),
                !steps_name(steps_v, 0),
                limit == page_limit(pagecount),
                limit <= pagecount,
                pages@.len() == pagecount,
                forall|j: int|
                    0 <= j < pagecount ==> #[trigger] pages@[j] == (j + 1 <= limit && steps_name(
                        steps_v.take(k as int),
                        (j + 1) as nat,
                    )),
            decreases steps.len() - k,
        {
            let ghost before = pages@;
            let ghost step = steps_v[k as int];
            assert(steps[k as int]@ == step);
            assert(steps_v.take(k + 1) =~= steps_v.take(k as int).push(step));
            assert forall|p: nat| #[trigger]
                steps_name(steps_v.take(k + 1), p) == (steps_name(steps_v.take(k as int), p)
                    || step_names(step, p)) by {
                if step_names(step, p) {
                    assert(steps_v.take(k + 1)[k as int] == step);
                }
                if steps_name(steps_v.take(k as int), p) {
                    let w = choose|w: int|
                        0 <= w < k && #[trigger] step_names(steps_v.take(k as int)[w], p);
                    assert(steps_v.take(k + 1)[w] == steps_v.take(k as int)[w]);
                }
                if steps_name(steps_v.take(k + 1), p) {
                    let w = choose|w: int|
                        0 <= w < k + 1 && #[trigger] step_names(steps_v.take(k + 1)[w], p);
                    if w < k {
                        assert(steps_v.take(k as int)[w] == steps_v.take(k + 1)[w]);
                    }
                }
            }
            assert(!step_names(step, 0nat)) by {
                if step_names(step, 0nat) {
                    assert(step_names(steps_v[k as int], 0nat));
                }
            }
            match parse_unsigned_chars(&steps[k], 4294967295) {
                Some(page) => {
                    if page <= limit {
                        pages.set((page - 1) as usize, true);
                    }
                },
                None => {},
            }
            let ghost after_single = pages@;
            match PageDifference::from_chars(&steps[k]) {
                Some(diff) => {
                    let top: u64 = if (diff.subtrahend as u64) < limit {
                        diff.subtrahend as u64
                    } else {
                        limit
                    };
                    let mut q: u64 = diff.minuend as u64;
                    while q <= top
                        invariant
                            pages@.len() == pagecount,
                            top <= limit <= pagecount,
                            1 <= diff.minuend <= q,
                            top <= diff.subtrahend,
                            forall|j: int|
                                0 <= j < pagecount ==> #[trigger] pages@[j] == (after_single[j] || (
                                diff.minuend <= j + 1 < q && j + 1 <= top)),
                        decreases top + 1 - q,
                    {
                        pages.set((q - 1) as usize, true);
                        q = q + 1;
                    }
                },
                None => {},
            }
            assert forall|j: int| 0 <= j < pagecount implies #[trigger] pages@[j] == (j + 1
                <= limit && steps_name(steps_v.take(k + 1), (j + 1) as nat)) by {
                assert(before[j] == (j + 1 <= limit && steps_name(
                    steps_v.take(k as int),
                    (j + 1) as nat,
                )));
            }
            k = k + 1;
        }
        assert(steps_v.take(steps.len() as int) =~= steps_v);
        let ghost sel = selected_pages(range@, pagecount);
        assert(pages@ =~= sel);
        let mut any = false;
        let mut j: usize = 0;
        while j < pages.len()
            invariant
                j <= pages.len(),
                pages@ == sel,
                any == exists|a: int| 0 <= a < j && #[trigger] sel[a],
            decreases pages.len() - j,
        {
            if pages[j] {
                any = true;
            }
            j = j + 1;
        }
        if !any {
            assert(none_selected(sel));
            None
        } else {
            Some(PageRange { pages })
        }
    }
}


/// Last index of the run of selected pages that contains index `i`,
/// looking forward from `i`.
pub open spec fn run_end(pages: Seq<bool>, i: int) -> int
    decreases pages.len() - i,
{
    if 0 <= i && i + 1 < pages.len() && pages[i + 1] {
        run_end(pages, i + 1)
    } else {
        i
    }
}

pub proof fn lemma_run_end(pages: Seq<bool>, i: int)
    requires
        0 <= i < pages.len(),
    ensures
        i <= run_end(pages, i) < pages.len(),
        forall|k: int| i <= k <= run_end(pages, i) ==> #[trigger] pages[k] || k == i,
        run_end(pages, i) + 1 < pages.len() ==> !pages[run_end(pages, i) + 1],
    decreases pages.len() - i,
{
    if i + 1 < pages.len() && pages[i + 1] {
        lemma_run_end(pages, i + 1);
    }
}

/// One run of pages `first..=last` (counted from 1) as a step: `first` or
/// `first-last`.
pub open spec fn run_item(first: nat, last: nat) -> Seq<char> {
    if first == last {
        decimal(first)
    } else {
        decimal(first) + seq!['-'] + decimal(last)
    }
}

/// A run followed by its comma.
pub open spec fn run_text(first: nat, last: nat) -> Seq<char> {
    run_item(first, last) + seq![',']
}

/// The runs of selected pages from index `i` on, each written by `run_text`.
pub open spec fn render_from(pages: Seq<bool>, i: int) -> Seq<char>
    decreases pages.len() - i,
{
    if i < 0 || i >= pages.len() {
        Seq::empty()
    } else if !pages[i] {
        render_from(pages, i + 1)
    } else {
        let j = run_end(pages, i);
        proof {
            lemma_run_end(pages, i);
        }
        run_text((i + 1) as nat, (j + 1) as nat) + render_from(pages, j + 1)
    }
}

pub open spec fn all_selected(pages: Seq<bool>) -> bool {
    forall|i: int| 0 <= i < pages.len() ==> #[trigger] pages[i]
}

/// The text of a page selection: empty when every page is selected, otherwise
/// each run of selected pages followed by a comma.
pub open spec fn range_text(pages: Seq<bool>) -> Seq<char> {
    if all_selected(pages) {
        Seq::empty()
    } else {
        render_from(pages, 0)
    }
}

/// A selection can be written unless its last page is selected on its own
/// while the page before is not (the scan reads past the end there).
pub open spec fn renderable(pages: Seq<bool>) -> bool {
    !(pages.len() >= 2 && pages[pages.len() - 1] && !pages[pages.len() - 2])
}

impl PageRange {
    /// The selection written as a range: each run of selected pages as `a,` or
    /// `a-b,`, and the empty text when every page is selected.
    pub fn to_string(&self) -> (res: String)
        requires
            renderable(self@),
        ensures
            res@ =~= range_text(self@),
    {
        let n = self.pages.len();
        let ghost pages = self.pages@;
        let mut all = true;
        let mut a: usize = 0;
        while a < n
            invariant
                a <= n == pages.len(),
                pages == self.pages@,
                all == forall|k: int| 0 <= k < a ==> #[trigger] pages[k],
            decreases n - a,
        {
            if !self.pages[a] {
                all = false;
            }
            a = a + 1;
        }
        if all {
            return String::new();
        }
        let mut out: Vec<char> = Vec::new();
        let mut i: usize = 0;
        while i < n
            invariant
                i <= n == pages.len(),
                pages == self.pages@,
                render_from(pages, 0) =~= out@ + render_from(pages, i as int),
            decreases n - i,
        {
            if !self.pages[i] {
                i = i + 1;
            } else {
                let mut j: usize = i;
                while j + 1 < n && self.pages[j + 1]
                    invariant
                        i <= j < n == pages.len(),
                        pages == self.pages@,
                        run_end(pages, i as int) == run_end(pages, j as int),
                    decreases n - j,
                {
                    j = j + 1;
                }
                proof {
                    lemma_run_end(pages, i as int);
                }
                let ghost before = out@;
                push_decimal(&mut out, (i + 1) as u64);
                if j > i {
                    out.push('-');
                    push_decimal(&mut out, (j + 1) as u64);
                }
                out.push(',');
                assert(out@ =~= before + run_text((i + 1) as nat, (j + 1) as nat));
                i = j + 1;
            }
        }
        assert(render_from(pages, n as int) =~= Seq::<char>::empty());
        string_from_chars(&out)
    }
}


/// Reads a range expression and writes the selected pages back in normal
/// form (the runs without the final comma); the empty text when no page is
/// selected.
pub fn normalize_range(range: &str, pagecount: usize) -> (res: String)
    requires
        range_is_well_numbered(range@),
        page_range(range@, pagecount) matches Some(pages) ==> renderable(pages),
    ensures
        res@ == normalized(range@, pagecount),
{
    match PageRange::new(range, pagecount) {
        Some(selection) => {
            let text = selection.to_string();
            let chars = chars_of(text.as_str());
            let mut kept: Vec<char> = Vec::new();
            let mut i: usize = 0;
            let n: usize = if chars.len() == 0 {
                0
            } else {
                chars.len() - 1
            };
            while i < n
                invariant
                    i <= n <= chars.len(),
                    kept@ =~= chars@.take(i as int),
                decreases n - i,
            {
                kept.push(chars[i]);
                i = i + 1;
            }
            assert(kept@ =~= normal_form(selection@));
            string_from_chars(&kept)
        },
        None => String::new(),
    }
}


/// Whether `PageRange::new` can read the expression: it names no page 0.
pub fn is_well_numbered(range: &str) -> (res: bool)
    ensures
        res == range_is_well_numbered(range@),
{
    let chars = chars_of(range);
    if chars.len() == 0 || (chars.len() == 1 && chars[0] == '-') {
        return true;
    }
    let trimmed = trim_chars(&chars);
    let steps = split_chars(&trimmed, ',');
    let ghost steps_v = range_steps(range@);
    assert(!selects_all(range@)) by {
        if range@ =~= seq!['-'] {
            assert(chars@[0] == '-');
        }
    }
    let mut k: usize = 0;
    while k < steps.len()
        invariant
            k <= steps.len(),
            !selects_all(range@),
            views(steps@) == steps_v,
            steps_v == range_steps(range@),
            forall|i: int| 0 <= i < k ==> !#[trigger] step_names(steps_v[i], 0nat),
        decreases steps.len() - k,
    {
        assert(steps[k as int]@ == steps_v[k as int]);
        let single = parse_unsigned_chars(&steps[k], 4294967295);
        let zero_single = match single {
            Some(p) => p == 0,
            None => false,
        };
        let zero_difference = match PageDifference::from_chars(&steps[k]) {
            Some(d) => d.minuend == 0,
            None => false,
        };
        if zero_single || zero_difference {
            assert(step_names(steps_v[k as int], 0nat));
            assert(range_names(range@, 0nat));
            return false;
        }
        k = k + 1;
    }
    assert(!steps_name(steps_v, 0nat)) by {
        if steps_name(steps_v, 0nat) {
            let w = choose|w: int| 0 <= w < steps_v.len() && #[trigger] step_names(steps_v[w], 0nat);
            assert(!step_names(steps_v[w], 0nat));
        }
    }
    true
}

impl PageRange {
    /// Whether `to_string` can write the selection.
    pub fn can_render(&self) -> (res: bool)
        ensures
            res == renderable(self@),
    {
        let n = self.pages.len();
        !(n >= 2 && self.pages[n - 1] && !self.pages[n - 2])
    }
}

} // verus!
