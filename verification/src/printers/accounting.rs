//! Charging a user for the pages a printer counts while it prints her jobs.
use vstd::prelude::*;

use crate::jobs::{pages_to_print_of, Job};

verus! {

/// The counters accounting reads: all pages, printed pages, and printed black
/// and white pages.
#[derive(Debug, Clone, Copy)]
pub struct CounterReading {
    pub total: i64,
    pub print_total: i64,
    pub print_bw: i64,
}

/// The accounting of one printer session.
pub struct Accounting {
    user_id: u32,
    printer_id: u32,
    job: Option<Job>,
    credit: i32,
    value: i32,
    expected: u32,
    baseprice: u8,
    basecounter: CounterReading,
    counter: CounterReading,
}

/// The state of an accounting as plain values.
pub struct AccountingView {
    pub user_id: u32,
    pub printer_id: u32,
    /// The job being printed.
    pub job: Option<Job>,
    /// The user's credit in cents, as last read.
    pub credit: i32,
    /// What the pages printed so far cost, in cents (zero or negative).
    pub value: i32,
    /// Sheet sides the job is expected to print.
    pub expected: u32,
    /// The price of one page in cents.
    pub baseprice: u8,
    /// The counters when the job started.
    pub basecounter: CounterReading,
    /// The counters last read.
    pub counter: CounterReading,
}

impl View for Accounting {
    type V = AccountingView;

    closed spec fn view(&self) -> AccountingView {
        AccountingView {
            user_id: self.user_id,
            printer_id: self.printer_id,
            job: self.job,
            credit: self.credit,
            value: self.value,
            expected: self.expected,
            baseprice: self.baseprice,
            basecounter: self.basecounter,
            counter: self.counter,
        }
    }
}

/// What a finished job is written to the journal with.
#[derive(Debug, Clone)]
pub struct CreditUpdate {
    pub user_id: u32,
    /// The cost of the job in cents (negative).
    pub value: i32,
    pub job_id: u32,
    /// All pages the printer counted.
    pub pages: i64,
    /// Colour pages the printer counted.
    pub colored: i64,
    pub device_id: u32,
    pub job: Job,
}

/// Division rounding toward zero, as Rust divides integers.
pub open spec fn div_toward_zero(a: int, b: int) -> int {
    if a >= 0 {
        a / b
    } else {
        -((-a) / b)
    }
}

/// Credit left: the credit plus the (negative) value of what was printed.
pub open spec fn balance(v: AccountingView) -> int {
    v.credit + v.value
}

/// The pages the balance still pays for.
pub open spec fn pages_left_of(v: AccountingView) -> int {
    div_toward_zero(balance(v), v.baseprice as int)
}

/// The balance does not pay for one more page.
pub open spec fn not_enough_credit_of(v: AccountingView) -> bool {
    balance(v) < v.baseprice
}

/// The price of a page: 20 cents in colour, 5 in black and white.
pub open spec fn baseprice_for(color: bool) -> u8 {
    if color {
        20
    } else {
        5
    }
}

/// The cost of the pages printed since the job started: 5 cents for each
/// black and white page, 20 for each colour page, as a negative amount.
pub open spec fn cost_since(base: CounterReading, counter: CounterReading) -> int {
    let printed = counter.print_total - base.print_total;
    let bw = counter.print_bw - base.print_bw;
    -(bw * 5 + (printed - bw) * 20)
}

/// Reading `counter` neither overflows nor gives a cost beyond `i32`.
pub open spec fn reading_fits(base: CounterReading, counter: CounterReading) -> bool {
    let printed = counter.print_total - base.print_total;
    let bw = counter.print_bw - base.print_bw;
    &&& i64::MIN <= printed <= i64::MAX
    &&& i64::MIN <= bw <= i64::MAX
    &&& i64::MIN <= printed - bw <= i64::MAX
    &&& i64::MIN <= bw * 5 <= i64::MAX
    &&& i64::MIN <= (printed - bw) * 20 <= i64::MAX
    &&& i64::MIN <= bw * 5 + (printed - bw) * 20 <= i64::MAX
    &&& i64::MIN < bw * 5 + (printed - bw) * 20
    &&& i32::MIN <= cost_since(base, counter) <= i32::MAX
}

/// The sheet sides a job prints.
pub open spec fn job_pages(job: Job) -> nat {
    pages_to_print_of(
        job.info.pagecount as nat,
        job.options.nup as nat,
        job.options.a3,
        job.options.copies as nat,
    )
}

/// The page totals of a journal entry fit an `i64`.
pub open spec fn totals_fit(v: AccountingView) -> bool {
    &&& i64::MIN <= v.counter.total - v.basecounter.total <= i64::MAX
    &&& i64::MIN <= v.counter.print_total - v.counter.print_bw <= i64::MAX
}

pub open spec fn printed_since_start(v: AccountingView) -> int {
    v.counter.print_total - v.basecounter.print_total
}

impl Accounting {
    /// A new accounting for a user at a printer, with no job and no credit
    /// read yet; the counters start at `counter`.
    pub fn new(user_id: u32, printer_id: u32, counter: CounterReading) -> (res: Accounting)
        ensures
            res@.user_id == user_id,
            res@.printer_id == printer_id,
            res@.job is None,
            res@.credit == 0,
            res@.value == 0,
            res@.expected == 0,
            res@.baseprice == 5,
            res@.basecounter == counter,
            res@.counter == counter,
    {
        Accounting {
            user_id,
            printer_id,
            credit: 0,
            job: None,
            value: 0,
            expected: 0,
            baseprice: 5,
            basecounter: counter,
            counter,
        }
    }

    /// Takes `latest` as the user's credit and returns it.
    pub fn credit(&mut self, latest: i32) -> (res: i32)
        ensures
            res == latest,
            final(self)@ == (AccountingView { credit: latest, ..old(self)@ }),
    {
        self.credit = latest;
        self.credit
    }

    /// What the pages printed so far cost, in cents.
    pub fn value(&self) -> (res: i32)
        ensures
            res == self@.value,
    {
        self.value
    }

    /// The pages the remaining credit pays for.
    pub fn pages_left(&self) -> (res: i32)
        requires
            self@.baseprice > 0,
            i32::MIN <= balance(self@) <= i32::MAX,
        ensures
            res == pages_left_of(self@),
    {
        let balance = self.credit + self.value;
        let price = self.baseprice as i32;
        balance / price
    }

    /// Whether the remaining credit does not pay for one more page.
    pub fn not_enough_credit(&self) -> (res: bool)
        requires
            i32::MIN <= balance(self@) <= i32::MAX,
        ensures
            res == not_enough_credit_of(self@),
    {
        self.credit + self.value < self.baseprice as i32
    }

    /// Starts accounting a job: the credit is `latest`, the counters start
    /// at `counter`, and the page price follows the colour chosen for the job.
    pub fn start(&mut self, job: Job, counter: CounterReading, latest: i32)
        requires
            job.options.nup > 0,
            job_pages(job) <= u32::MAX,
        ensures
            final(self)@ == (AccountingView {
                job: Some(job),
                credit: latest,
                expected: job_pages(job) as u32,
                baseprice: baseprice_for(job.options.color),
                basecounter: counter,
                counter: counter,
                ..old(self)@
            }),
    {
        self.credit(latest);
        self.expected = job.pages_to_print();
        self.baseprice = if job.options.color {
            20
        } else {
            5
        };
        self.job = Some(job);
        self.counter = counter;
        self.basecounter = counter;
    }

    /// Reads new counters. When the printer counted more pages than before,
    /// the counters are kept, the cost of the pages since the start is
    /// charged, and `true` comes back; otherwise nothing changes.
    pub fn update(&mut self, counter: Option<CounterReading>) -> (res: bool)
        requires
            counter matches Some(c) ==> (c.total > old(self)@.counter.total ==> reading_fits(
                old(self)@.basecounter,
                c,
            )),
        ensures
            res == (counter matches Some(c) && c.total > old(self)@.counter.total),
            res ==> final(self)@ == (AccountingView {
                counter: counter->0,
                value: cost_since(old(self)@.basecounter, counter->0) as i32,
                ..old(self)@
            }),
            !res ==> final(self)@ == old(self)@,
    {
        if let Some(counter) = counter {
            if counter.total > self.counter.total {
                let print_total = counter.print_total - self.basecounter.print_total;
                let print_bw = counter.print_bw - self.basecounter.print_bw;
                self.counter = counter;
                let cost: i64 = print_bw * 5 + (print_total - print_bw) * 20;
                self.value = (-cost) as i32;
                return true;
            }
        }
        false
    }

    /// Whether `update` can take `counter` without an overflow.
    pub fn can_update(&self, counter: &CounterReading) -> (res: bool)
        ensures
            res == reading_fits(self@.basecounter, *counter),
    {
        let printed = (counter.print_total as i128) - (self.basecounter.print_total as i128);
        let bw = (counter.print_bw as i128) - (self.basecounter.print_bw as i128);
        let min = i64::MIN as i128;
        let max = i64::MAX as i128;
        if printed < min || printed > max || bw < min || bw > max {
            return false;
        }
        let color = printed - bw;
        if color < min || color > max {
            return false;
        }
        let bw_cost = bw * 5;
        let color_cost = color * 20;
        if bw_cost < min || bw_cost > max || color_cost < min || color_cost > max {
            return false;
        }
        let cost = bw_cost + color_cost;
        if cost <= min || cost > max {
            return false;
        }
        -cost >= i32::MIN as i128 && -cost <= i32::MAX as i128
    }

    /// The total page count of the last reading.
    pub fn last_total(&self) -> (res: i64)
        ensures
            res == self@.counter.total,
    {
        self.counter.total
    }

    /// Whether the balance fits an `i32`, as `pages_left` and
    /// `not_enough_credit` need.
    pub fn balance_fits(&self) -> (res: bool)
        ensures
            res == (i32::MIN <= balance(self@) <= i32::MAX),
    {
        let b = (self.credit as i64) + (self.value as i64);
        b >= i32::MIN as i64 && b <= i32::MAX as i64
    }

    /// Whether `finished` can compare and total the counters without an
    /// overflow.
    pub fn can_check_finished(&self) -> (res: bool)
        ensures
            res == (i64::MIN <= printed_since_start(self@) <= i64::MAX && totals_fit(self@)),
    {
        let printed = (self.counter.print_total as i128) - (self.basecounter.print_total as i128);
        let pages = (self.counter.total as i128) - (self.basecounter.total as i128);
        let colored = (self.counter.print_total as i128) - (self.counter.print_bw as i128);
        let min = i64::MIN as i128;
        let max = i64::MAX as i128;
        min <= printed && printed <= max && min <= pages && pages <= max && min <= colored && colored
            <= max
    }

    /// Whether `finish` can hand back the journal entry: a charge needs a job
    /// and page totals that fit.
    pub fn can_finish(&self) -> (res: bool)
        ensures
            res == (self@.value < 0 ==> self@.job is Some && totals_fit(self@)),
    {
        if self.value >= 0 {
            return true;
        }
        let pages = (self.counter.total as i128) - (self.basecounter.total as i128);
        let colored = (self.counter.print_total as i128) - (self.counter.print_bw as i128);
        self.job.is_some() && pages >= i64::MIN as i128 && pages <= i64::MAX as i128 && colored
            >= i64::MIN as i128 && colored <= i64::MAX as i128
    }

    /// Ends the job when something was charged: the charge is handed back
    /// for the journal and the accounting is ready for the next job.
    pub fn finish(&mut self) -> (res: Option<CreditUpdate>)
        requires
            old(self)@.value < 0 ==> old(self)@.job is Some && totals_fit(old(self)@),
        ensures
            old(self)@.value < 0 ==> res == Some(journal_entry(old(self)@)) && final(self)@
                == after_finish(old(self)@),
            old(self)@.value >= 0 ==> res is None && final(self)@ == old(self)@,
    {
        if self.value < 0 {
            let job = match self.job.take() {
                Some(job) => job,
                None => {
                    return None;
                },
            };
            let pages = self.counter.total - self.basecounter.total;
            let colored = self.counter.print_total - self.counter.print_bw;
            let update = CreditUpdate {
                user_id: self.user_id,
                value: self.value,
                job_id: job.id,
                pages,
                colored,
                device_id: self.printer_id,
                job,
            };
            self.value = 0;
            self.expected = 0;
            return Some(update);
        }
        None
    }

    /// Finishes the job once the printer counted all its expected pages.
    pub fn finished(&mut self) -> (res: Option<CreditUpdate>)
        requires
            i64::MIN <= printed_since_start(old(self)@) <= i64::MAX,
            totals_fit(old(self)@),
        ensures
            old(self)@.job is Some && printed_since_start(old(self)@) == old(self)@.expected
                && old(self)@.value < 0 ==> res == Some(journal_entry(old(self)@)) && final(self)@
                == after_finish(old(self)@),
            !(old(self)@.job is Some && printed_since_start(old(self)@) == old(self)@.expected
                && old(self)@.value < 0) ==> res is None && final(self)@ == old(self)@,
    {
        if self.job.is_some() && self.counter.print_total - self.basecounter.print_total
            == self.expected as i64 {
            self.finish()
        } else {
            None
        }
    }
}

/// The journal entry of the job being accounted.
pub open spec fn journal_entry(v: AccountingView) -> CreditUpdate {
    CreditUpdate {
        user_id: v.user_id,
        value: v.value,
        job_id: v.job->0.id,
        pages: (v.counter.total - v.basecounter.total) as i64,
        colored: (v.counter.print_total - v.counter.print_bw) as i64,
        device_id: v.printer_id,
        job: v.job->0,
    }
}

/// The accounting after a job is written to the journal: nothing is
/// charged, no job, no pages expected.
pub open spec fn after_finish(v: AccountingView) -> AccountingView {
    AccountingView { value: 0, job: None, expected: 0, ..v }
}

/// A job is charged once: after `finish` wrote its entry, nothing is
/// charged any more, so a second `finish` (or `finished`) hands back no entry
/// and changes nothing.
pub proof fn lemma_charged_once(v: AccountingView)
    requires
        v.value < 0,
        v.job is Some,
        totals_fit(v),
    ensures
        after_finish(v).value >= 0,
        after_finish(v).job is None,
        after_finish(v).expected == 0,
{
}

/// A user runs out of credit exactly when the balance pays for no more pages:
/// `not_enough_credit` holds if and only if `pages_left` is zero or less.
pub proof fn lemma_not_enough_credit_iff_no_pages_left(v: AccountingView)
    requires
        v.baseprice > 0,
    ensures
        not_enough_credit_of(v) == (pages_left_of(v) <= 0),
{
    let b = balance(v);
    let p = v.baseprice as int;
    if b >= 0 {
        assert(b / p >= 1 <==> b >= p) by (nonlinear_arith)
            requires
                b >= 0,
                p > 0,
        ;
    } else {
        assert((-b) / p >= 0) by (nonlinear_arith)
            requires
                b < 0,
                p > 0,
        ;
    }
}

} // verus!
