//! Print jobs: the sheets they need and the printer job language stream
//! that is sent to the printer.
use vstd::prelude::*;
use vstd::string::StringSliceAdditionalSpecFns;
use vstd::utf8::encode_utf8;

pub mod copy;
pub mod info;
pub mod options;
pub mod stamp;
pub mod queue;
pub mod response;
pub mod tmp;
pub mod uid;

use crate::external::{format_local_time, hex_encode, string_from_chars};
use crate::jobs::stamp::{header_date_time, LocalTime};
use crate::jobs::info::JobInfo;
use crate::jobs::options::JobOptions;
use crate::text::{decimal, digit_char, lower_hex, push_decimal};

verus! {

/// A stored print job.
#[derive(Debug, Clone)]
pub struct Job {
    pub id: u32,
    /// Creation time in seconds since the epoch.
    pub timestamp: i64,
    pub info: JobInfo,
    pub options: JobOptions,
}

/// Sheet sides a job prints: the pages put `nup` to a side (rounded up),
/// twice that on A3, times the number of copies.
pub open spec fn pages_to_print_of(pagecount: nat, nup: nat, a3: bool, copies: nat) -> nat {
    let sides = pagecount / nup + if pagecount % nup == 0 {
        0nat
    } else {
        1nat
    };
    (if a3 {
        sides * 2
    } else {
        sides
    }) * copies
}

/// The first line of every stream: the universal exit and a comment.
pub open spec fn pjl_start() -> Seq<char> {
    "\x1b%-12345X@PJL COMMENT PJL,LINUX,PDF\r\n"@
}

/// A `NAME="value"` line.
pub open spec fn quoted_line(prefix: Seq<char>, value: Seq<char>) -> Seq<char> {
    prefix + value + "\"\r\n"@
}

pub open spec fn paper_line(a3: bool) -> Seq<char> {
    if a3 {
        "@PJL SET PAPER=A3\r\n"@
    } else {
        "@PJL SET PAPER=A4\r\n"@
    }
}

pub open spec fn duplex_lines(duplex: u8) -> Seq<char> {
    if duplex == 0 {
        "@PJL SET DUPLEX=OFF\r\n"@
    } else if duplex == 1 {
        "@PJL SET DUPLEX=ON\r\n@PJL SET BINDING=LONGEDGE\r\n"@
    } else if duplex == 2 {
        "@PJL SET DUPLEX=ON\r\n@PJL SET BINDING=SHORTEDGE\r\n"@
    } else {
        Seq::empty()
    }
}

/// More than one copy: `COPIES` when collated, `QTY` otherwise.
pub open spec fn copies_lines(copies: u16, collate: bool) -> Seq<char> {
    if copies > 1 {
        if collate {
            "@PJL SET COPIES="@ + decimal(copies as nat) + "\r\n"@
        } else {
            "@PJL SET QTY="@ + decimal(copies as nat) + "\r\n"@
        }
    } else {
        Seq::empty()
    }
}

/// Fit to the paper asked for when the document has the other size.
pub open spec fn fit_line(options_a3: bool, document_a3: bool) -> Seq<char> {
    if options_a3 != document_a3 {
        if !options_a3 {
            "@PJL SET FITTOPAGESIZE=A4\r\n"@
        } else {
            "@PJL SET FITTOPAGESIZE=A3\r\n"@
        }
    } else {
        Seq::empty()
    }
}

/// Several pages per sheet: the count (2 or 4) and the page order. The page
/// order lines are written without the leading `@`.
pub open spec fn nup_lines(nup: u8, order: u8) -> Seq<char> {
    if nup > 1 {
        (if nup == 2 {
            "@PJL SET NUP=2\r\n"@
        } else if nup == 4 {
            "@PJL SET NUP=4\r\n"@
        } else {
            Seq::empty()
        }) + (if order == 0 {
            "PJL SET NUPPAGEORDER=RIGHTTHENDOWN\r\n"@
        } else if order == 1 {
            "PJL SET NUPPAGEORDER=DOWNTHENRIGHT\r\n"@
        } else if order == 2 {
            "PJL SET NUPPAGEORDER=LEFTTHENDOWN\r\n"@
        } else if order == 3 {
            "PJL SET NUPPAGEORDER=DOWNTHENLEFT\r\n"@
        } else {
            Seq::empty()
        })
    } else {
        Seq::empty()
    }
}

pub open spec fn range_line(range: Seq<char>) -> Seq<char> {
    if range.len() != 0 {
        quoted_line("@PJL SET PRINTPAGES=\""@, range)
    } else {
        Seq::empty()
    }
}

/// The defaults every job gets, and the switch to PDF.
pub open spec fn pjl_defaults() -> Seq<char> {
    "@PJL SET AUTOTRAYCHANGE ON\r\n"@ + "@PJL SET MEDIATYPE=PLAINNORECYCLED\r\n"@
        + "@PJL ENTER LANGUAGE=PDF\r\n"@
}

/// The end of every stream: end of job and the universal exit.
pub open spec fn pjl_end() -> Seq<char> {
    "\x1b%-12345X@PJL EOJ\r\n\x1b%-12345X"@
}

/// The header written in front of a job's document.
pub open spec fn pjl_header(
    job: Job,
    uid_hex: Seq<char>,
    user_id: u32,
    date: Seq<char>,
    time: Seq<char>,
) -> Seq<char> {
    identity_lines(uid_hex, user_id, date, time) + settings_lines(job.options, job.info.a3)
        + pjl_defaults()
}

/// The bytes sent to the printer: the header, the document, the end.
pub open spec fn pjl_stream(
    job: Job,
    uid: Seq<u8>,
    user_id: u32,
    date: Seq<char>,
    time: Seq<char>,
    data: Seq<u8>,
) -> Seq<u8> {
    encode_utf8(pjl_header(job, lower_hex(uid), user_id, date, time)) + data + encode_utf8(
        pjl_end(),
    )
}

/// The lines that name the job, its owner, its identifier and the time.
pub open spec fn identity_lines(
    uid_hex: Seq<char>,
    user_id: u32,
    date: Seq<char>,
    time: Seq<char>,
) -> Seq<char> {
    pjl_start() + quoted_line("@PJL JOB NAME=\""@, decimal(user_id as nat)) + quoted_line(
        "@PJL SET JOBNAME=\""@,
        decimal(user_id as nat),
    ) + quoted_line("@PJL SET TRACKID=\""@, uid_hex) + quoted_line(
        "@PJL SET USERNAME=\""@,
        decimal(user_id as nat),
    ) + quoted_line("@PJL SET DATE=\""@, date) + quoted_line("@PJL SET TIME=\""@, time)
}

/// The lines that carry the print options.
pub open spec fn settings_lines(options: JobOptions, document_a3: bool) -> Seq<char> {
    paper_line(options.a3) + duplex_lines(options.duplex) + copies_lines(
        options.copies,
        options.collate,
    ) + fit_line(options.a3, document_a3) + nup_lines(options.nup, options.nuppageorder)
        + range_line(options.range@)
}

fn append_quoted(s: &mut String, prefix: &str, value: &str)
    ensures
        final(s)@ =~= old(s)@ + quoted_line(prefix@, value@),
{
    s.append(prefix);
    s.append(value);
    s.append("\"\r\n");
}

fn append_quoted_decimal(s: &mut String, prefix: &str, value: u32)
    ensures
        final(s)@ =~= old(s)@ + quoted_line(prefix@, decimal(value as nat)),
{
    s.append(prefix);
    append_decimal(s, value as u64);
    s.append("\"\r\n");
}

fn append_identity(s: &mut String, uid_hex: &str, user_id: u32, date: &str, time: &str)
    ensures
        final(s)@ =~= old(s)@ + identity_lines(uid_hex@, user_id, date@, time@),
{
    s.append("\x1b%-12345X@PJL COMMENT PJL,LINUX,PDF\r\n");
    append_quoted_decimal(s, "@PJL JOB NAME=\"", user_id);
    append_quoted_decimal(s, "@PJL SET JOBNAME=\"", user_id);
    append_quoted(s, "@PJL SET TRACKID=\"", uid_hex);
    append_quoted_decimal(s, "@PJL SET USERNAME=\"", user_id);
    append_quoted(s, "@PJL SET DATE=\"", date);
    append_quoted(s, "@PJL SET TIME=\"", time);
}

impl JobOptions {
    fn append_paper_duplex(&self, s: &mut String)
        ensures
            final(s)@ =~= old(s)@ + paper_line(self.a3) + duplex_lines(self.duplex),
    {
        if !self.a3 {
            s.append("@PJL SET PAPER=A4\r\n");
        } else {
            s.append("@PJL SET PAPER=A3\r\n");
        }
        if self.duplex == 0 {
            s.append("@PJL SET DUPLEX=OFF\r\n");
        } else if self.duplex == 1 {
            s.append("@PJL SET DUPLEX=ON\r\n@PJL SET BINDING=LONGEDGE\r\n");
        } else if self.duplex == 2 {
            s.append("@PJL SET DUPLEX=ON\r\n@PJL SET BINDING=SHORTEDGE\r\n");
        }
    }

    fn append_copies_fit(&self, s: &mut String, document_a3: bool)
        ensures
            final(s)@ =~= old(s)@ + copies_lines(self.copies, self.collate) + fit_line(
                self.a3,
                document_a3,
            ),
    {
        if self.copies > 1 {
            if self.collate {
                s.append("@PJL SET COPIES=");
            } else {
                s.append("@PJL SET QTY=");
            }
            append_decimal(s, self.copies as u64);
            s.append("\r\n");
        }
        if self.a3 != document_a3 {
            if !self.a3 {
                s.append("@PJL SET FITTOPAGESIZE=A4\r\n");
            } else {
                s.append("@PJL SET FITTOPAGESIZE=A3\r\n");
            }
        }
    }

    fn append_nup(&self, s: &mut String)
        ensures
            final(s)@ =~= old(s)@ + nup_lines(self.nup, self.nuppageorder),
    {
        if self.nup > 1 {
            if self.nup == 2 {
                s.append("@PJL SET NUP=2\r\n");
            } else if self.nup == 4 {
                s.append("@PJL SET NUP=4\r\n");
            }
            if self.nuppageorder == 0 {
                s.append("PJL SET NUPPAGEORDER=RIGHTTHENDOWN\r\n");
            } else if self.nuppageorder == 1 {
                s.append("PJL SET NUPPAGEORDER=DOWNTHENRIGHT\r\n");
            } else if self.nuppageorder == 2 {
                s.append("PJL SET NUPPAGEORDER=LEFTTHENDOWN\r\n");
            } else if self.nuppageorder == 3 {
                s.append("PJL SET NUPPAGEORDER=DOWNTHENLEFT\r\n");
            }
        }
    }

    fn append_settings(&self, s: &mut String, document_a3: bool)
        ensures
            final(s)@ =~= old(s)@ + settings_lines(*self, document_a3),
    {
        self.append_paper_duplex(s);
        self.append_copies_fit(s, document_a3);
        self.append_nup(s);
        if !self.range.as_str().is_empty() {
            append_quoted(s, "@PJL SET PRINTPAGES=\"", self.range.as_str());
        }
    }
}

fn append_decimal(s: &mut String, n: u64)
    ensures
        final(s)@ =~= old(s)@ + decimal(n as nat),
{
    let mut digits: Vec<char> = Vec::new();
    push_decimal(&mut digits, n);
    let text = string_from_chars(&digits);
    s.append(text.as_str());
}

impl Job {
    /// Sheet sides the job prints, as `pages_to_print_of` counts them.
    pub fn pages_to_print(&self) -> (res: u32)
        requires
            self.options.nup > 0,
            pages_to_print_of(
                self.info.pagecount as nat,
                self.options.nup as nat,
                self.options.a3,
                self.options.copies as nat,
            ) <= u32::MAX,
        ensures
            res == pages_to_print_of(
                self.info.pagecount as nat,
                self.options.nup as nat,
                self.options.a3,
                self.options.copies as nat,
            ),
    {
        let pagecount = self.info.pagecount as u32;
        let nup = self.options.nup as u32;
        let mut count: u32 = (pagecount / nup) + if pagecount % nup == 0 {
            0
        } else {
            1
        };
        assert(count <= 65536) by (nonlinear_arith)
            requires
                count == (pagecount / nup) + if pagecount % nup == 0 {
                    0u32
                } else {
                    1u32
                },
                pagecount <= 65535,
                nup >= 1,
        ;
        if self.options.a3 {
            count = count * 2;
        }
        let copies = self.options.copies as u32;
        assert(count * copies <= u32::MAX);
        count * copies
    }

    /// The sheet sides the job prints, or `None` when it prints no page per
    /// side or the count does not fit a `u32`.
    pub fn checked_pages_to_print(&self) -> (res: Option<u32>)
        ensures
            match res {
                Some(n) => self.options.nup > 0 && n == pages_to_print_of(
                    self.info.pagecount as nat,
                    self.options.nup as nat,
                    self.options.a3,
                    self.options.copies as nat,
                ),
                None => self.options.nup == 0 || pages_to_print_of(
                    self.info.pagecount as nat,
                    self.options.nup as nat,
                    self.options.a3,
                    self.options.copies as nat,
                ) > u32::MAX,
            },
    {
        if self.options.nup == 0 {
            return None;
        }
        let pagecount = self.info.pagecount as u64;
        let nup = self.options.nup as u64;
        let sides: u64 = (pagecount / nup) + if pagecount % nup == 0 {
            0
        } else {
            1
        };
        assert(sides <= 65536) by (nonlinear_arith)
            requires
                sides == (pagecount / nup) + if pagecount % nup == 0 {
                    0u64
                } else {
                    1u64
                },
                pagecount <= 65535,
                nup >= 1,
        ;
        let sides = if self.options.a3 {
            sides * 2
        } else {
            sides
        };
        assert(sides * (self.options.copies as u64) <= 131072 * 65535) by (nonlinear_arith)
            requires
                sides <= 131072,
                self.options.copies <= 65535,
        ;
        let total = sides * (self.options.copies as u64);
        assert(total == pages_to_print_of(
            self.info.pagecount as nat,
            self.options.nup as nat,
            self.options.a3,
            self.options.copies as nat,
        ));
        if total > 4294967295 {
            return None;
        }
        Some(self.pages_to_print())
    }

    /// The stream for the printer with a given date and time: the header
    /// built from the job's options, the document, and the end of job.
    pub fn translate_for_printer_at(
        &self,
        uid: &[u8],
        user_id: u32,
        data: Vec<u8>,
        date: &str,
        time: &str,
    ) -> (res: Vec<u8>)
        ensures
            res@ == pjl_stream(*self, uid@, user_id, date@, time@, data@),
    {
        let mut header = String::new();
        let uid_hex = hex_encode(uid);
        append_identity(&mut header, uid_hex.as_str(), user_id, date, time);
        self.options.append_settings(&mut header, self.info.a3);
        header.append("@PJL SET AUTOTRAYCHANGE ON\r\n");
        header.append("@PJL SET MEDIATYPE=PLAINNORECYCLED\r\n");
        header.append("@PJL ENTER LANGUAGE=PDF\r\n");
        assert(header@ =~= pjl_header(*self, lower_hex(uid@), user_id, date@, time@));
        let mut stream = header.as_str().as_bytes_vec();
        let mut body = data;
        stream.append(&mut body);
        let mut end = "\x1b%-12345X@PJL EOJ\r\n\x1b%-12345X".as_bytes_vec();
        stream.append(&mut end);
        stream
    }

    /// The stream for the printer, dated with the clock reading `now`: chrono
    /// writes it as `%Y/%m/%d%H:%M:%S`, and the text is split after its tenth
    /// byte into the date and the time. `None` when chrono cannot write the
    /// reading or no character ends at the tenth byte.
    pub fn translate_for_printer(&mut self, uid: &[u8], user_id: u32, data: Vec<u8>, now: LocalTime) -> (res: Option<Vec<u8>>)
        ensures
            *final(self) == *old(self),
            match header_date_time(now) {
                Some((date, time)) => res matches Some(r) && r@ == pjl_stream(
                    *old(self),
                    uid@,
                    user_id,
                    date,
                    time,
                    data@,
                ),
                None => res is None,
            },
    {
        let stamp = match format_local_time(&now, "%Y/%m/%d%H:%M:%S") {
            Some(s) => s,
            None => return None,
        };
        let text = stamp.as_str();
        if !text.is_char_boundary(10) {
            return None;
        }
        let (date, time) = text.split_at(10);
        proof {
            vstd::utf8::encode_utf8_decode_utf8(date@);
            vstd::utf8::encode_utf8_decode_utf8(time@);
            assert(date.spec_bytes() =~= encode_utf8(stamp@).take(10));
            assert(time.spec_bytes() =~= encode_utf8(stamp@).skip(10));
        }
        Some(self.translate_for_printer_at(uid, user_id, data, date, time))
    }
}

/// The PJL name of each page order, as the options document it: 0 right then
/// down, 1 down then right, 2 left then down, 3 down then left.
pub open spec fn page_order_name(order: u8) -> Seq<char> {
    if order == 0 {
        "RIGHTTHENDOWN"@
    } else if order == 1 {
        "DOWNTHENRIGHT"@
    } else if order == 2 {
        "LEFTTHENDOWN"@
    } else {
        "DOWNTHENLEFT"@
    }
}

/// `part` stands somewhere in `text`.
pub open spec fn contains_text(text: Seq<char>, part: Seq<char>) -> bool {
    exists|i: int|
        0 <= i && i + part.len() <= text.len() && #[trigger] text.subrange(i, i + part.len()) == part
}

/// The line that names a page order.
pub open spec fn page_order_line(order: u8) -> Seq<char> {
    "PJL SET NUPPAGEORDER="@ + page_order_name(order) + "\r\n"@
}

proof fn lemma_nup_lines_name_the_order(nup: u8, order: u8)
    requires
        nup > 1,
        order <= 3,
    ensures
        exists|count: Seq<char>| nup_lines(nup, order) == count + #[trigger] page_order_line(order),
{
    reveal_strlit("PJL SET NUPPAGEORDER=");
    reveal_strlit("\r\n");
    let count = if nup == 2 {
        "@PJL SET NUP=2\r\n"@
    } else if nup == 4 {
        "@PJL SET NUP=4\r\n"@
    } else {
        Seq::empty()
    };
    if order == 0 {
        reveal_strlit("RIGHTTHENDOWN");
        reveal_strlit("PJL SET NUPPAGEORDER=RIGHTTHENDOWN\r\n");
    } else if order == 1 {
        reveal_strlit("DOWNTHENRIGHT");
        reveal_strlit("PJL SET NUPPAGEORDER=DOWNTHENRIGHT\r\n");
    } else if order == 2 {
        reveal_strlit("LEFTTHENDOWN");
        reveal_strlit("PJL SET NUPPAGEORDER=LEFTTHENDOWN\r\n");
    } else {
        reveal_strlit("DOWNTHENLEFT");
        reveal_strlit("PJL SET NUPPAGEORDER=DOWNTHENLEFT\r\n");
    }
    assert(nup_lines(nup, order) =~= count + page_order_line(order));
}

proof fn lemma_contains_middle(a: Seq<char>, b: Seq<char>, c: Seq<char>)
    ensures
        contains_text(a + b + c, b),
{
    assert((a + b + c).subrange(a.len() as int, (a.len() + b.len()) as int) =~= b);
}

/// A job printed with several pages per sheet names its page order in the
/// header: the line `PJL SET NUPPAGEORDER=` with the order's PJL name.
pub proof fn lemma_page_order_in_header(
    job: Job,
    uid_hex: Seq<char>,
    user_id: u32,
    date: Seq<char>,
    time: Seq<char>,
)
    requires
        job.options.nup > 1,
        job.options.nuppageorder <= 3,
    ensures
        contains_text(pjl_header(job, uid_hex, user_id, date, time), page_order_line(job.options.nuppageorder)),
{
    let o = job.options;
    lemma_nup_lines_name_the_order(o.nup, o.nuppageorder);
    let count = choose|count: Seq<char>| nup_lines(o.nup, o.nuppageorder) == count + #[trigger] page_order_line(o.nuppageorder);
    let line = page_order_line(o.nuppageorder);
    let a = identity_lines(uid_hex, user_id, date, time) + paper_line(o.a3) + duplex_lines(o.duplex)
        + copies_lines(o.copies, o.collate) + fit_line(o.a3, job.info.a3) + count;
    let c = range_line(o.range@) + pjl_defaults();
    assert(pjl_header(job, uid_hex, user_id, date, time) =~= a + line + c);
    lemma_contains_middle(a, line, c);
}
/// The line that names how many pages go on a sheet.
pub open spec fn page_count_line(nup: u8) -> Seq<char> {
    "@PJL SET NUP="@ + decimal(nup as nat) + "\r\n"@
}

proof fn lemma_nup_lines_name_the_count(nup: u8, order: u8)
    requires
        nup == 2 || nup == 4,
    ensures
        exists|rest: Seq<char>| nup_lines(nup, order) == #[trigger] page_count_line(nup) + rest,
{
    reveal_strlit("@PJL SET NUP=");
    reveal_strlit("\r\n");
    assert(decimal(nup as nat) =~= seq![digit_char(nup as nat)]);
    if nup == 2 {
        reveal_strlit("@PJL SET NUP=2\r\n");
        assert("@PJL SET NUP=2\r\n"@ =~= page_count_line(nup));
    } else {
        reveal_strlit("@PJL SET NUP=4\r\n");
        assert("@PJL SET NUP=4\r\n"@ =~= page_count_line(nup));
    }
    let rest = nup_lines(nup, order).skip(page_count_line(nup).len() as int);
    assert(nup_lines(nup, order) =~= page_count_line(nup) + rest);
}

/// A job printed with two or four pages per sheet names that count in the
/// header: the line `@PJL SET NUP=` with the count.
#[verifier::rlimit(40)]
pub proof fn lemma_page_count_in_header(
    job: Job,
    uid_hex: Seq<char>,
    user_id: u32,
    date: Seq<char>,
    time: Seq<char>,
)
    requires
        job.options.nup == 2 || job.options.nup == 4,
    ensures
        contains_text(pjl_header(job, uid_hex, user_id, date, time), page_count_line(job.options.nup)),
{
    let o = job.options;
    lemma_nup_lines_name_the_count(o.nup, o.nuppageorder);
    let rest = choose|rest: Seq<char>| nup_lines(o.nup, o.nuppageorder) == #[trigger] page_count_line(o.nup) + rest;
    let line = page_count_line(o.nup);
    let a = identity_lines(uid_hex, user_id, date, time) + paper_line(o.a3) + duplex_lines(o.duplex)
        + copies_lines(o.copies, o.collate) + fit_line(o.a3, job.info.a3);
    let c = rest + range_line(o.range@) + pjl_defaults();
    assert(pjl_header(job, uid_hex, user_id, date, time) =~= a + line + c);
    lemma_contains_middle(a, line, c);
}
} // verus!
