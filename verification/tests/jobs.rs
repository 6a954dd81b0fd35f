use astaprint::jobs::info::JobInfo;
use astaprint::jobs::options::{update_options, JobOptions, JobOptionsUpdate, Update, Value};
use astaprint::jobs::queue::data::{looks_like_pdf, PdfBody};
use astaprint::jobs::copy::{copy_outcome, CopyOutcome};
use astaprint::jobs::queue::upload::{upload_verdict, UploadRefusal};
use astaprint::jobs::queue::{
    dispatched_filename, dispatched_options, get_dispatcher_queue, shorten_filename, start_dispatch, DispatcherTask,
    DEFAULT_PREPROCESS, IMAGE_PREPROCESS,
};
use astaprint::jobs::stamp::LocalTime;
use astaprint::logger::{LogLevel, Logger};
use astaprint::jobs::tmp::TemporaryFile;
use astaprint::jobs::uid::UID;
use astaprint::jobs::Job;

fn job(options: JobOptions, pagecount: u16, a3: bool) -> Job {
    let mut info = JobInfo::new("doc.pdf", "", false);
    info.pagecount = pagecount;
    info.a3 = a3;
    Job { id: 7, timestamp: 0, info, options }
}

fn no_update() -> JobOptionsUpdate {
    JobOptionsUpdate {
        duplex: None,
        copies: None,
        collate: None,
        keep: None,
        a3: None,
        nup: None,
        nuppageorder: None,
        range: None,
    }
}

#[test]
fn job_info_new_is_fresh() {
    let info = JobInfo::new("thesis.pdf", "secret", true);
    assert_eq!(info.filename, "thesis.pdf");
    assert_eq!(info.password, "secret");
    assert_eq!(info.pagecount, 0);
    assert!(info.color);
    assert!(!info.a3);
}

#[test]
fn default_options() {
    let o = JobOptions::default();
    assert_eq!((o.duplex, o.copies, o.collate, o.keep, o.a3, o.nup, o.nuppageorder), (0, 1, false, false, false, 1, 0));
    assert_eq!(o.range, "");
    assert!(!o.color);
    assert_eq!(o.displayname, "");
    let _values = [Value::S(String::from("x")), Value::I(3), Value::B(true)];
}

#[test]
fn merge_replaces_given_options() {
    let mut o = JobOptions::default();
    let mut u = no_update();
    u.copies = Some(4);
    u.range = Some(String::from("2-3"));
    u.a3 = Some(true);
    o.merge(u);
    assert_eq!(o.copies, 4);
    assert_eq!(o.range, "2-3");
    assert!(o.a3);
    assert_eq!(o.duplex, 0);
    assert_eq!(o.nup, 1);
    let before = o.clone();
    o.merge(no_update());
    assert_eq!(o.copies, before.copies);
    assert_eq!(o.range, before.range);
}

#[test]
fn update_options_normalizes_range() {
    let mut u = no_update();
    u.range = Some(String::from(" 3,1-2 , 9"));
    u.duplex = Some(2);
    let o = update_options(JobOptions::default(), u, 5);
    assert_eq!(o.range, "1-3");
    assert_eq!(o.duplex, 2);
    let mut u = no_update();
    u.range = Some(String::from("40-50"));
    let o = update_options(JobOptions::default(), u, 5);
    assert_eq!(o.range, "");
}

#[test]
fn pages_to_print_counts_sheet_sides() {
    let mut o = JobOptions::default();
    assert_eq!(job(o.clone(), 10, false).pages_to_print(), 10);
    o.nup = 4;
    assert_eq!(job(o.clone(), 10, false).pages_to_print(), 3);
    o.a3 = true;
    assert_eq!(job(o.clone(), 10, false).pages_to_print(), 6);
    o.copies = 2;
    assert_eq!(job(o.clone(), 10, false).pages_to_print(), 12);
    o.nup = 2;
    o.a3 = false;
    o.copies = 1;
    assert_eq!(job(o, 8, false).pages_to_print(), 4);
}

const END: &[u8] = b"\x1b%-12345X@PJL EOJ\r\n\x1b%-12345X";

#[test]
fn pjl_stream_with_all_options() {
    let mut o = JobOptions::default();
    o.duplex = 1;
    o.copies = 3;
    o.collate = true;
    o.a3 = true;
    o.nup = 2;
    o.nuppageorder = 1;
    o.range = String::from("1-3");
    let j = job(o, 10, false);
    let data = b"%PDF-1.4 x".to_vec();
    let out = j.translate_for_printer_at(&[0xde, 0xad, 0x01], 42, data.clone(), "2019/05/01", "12:34:56");
    let mut expected: Vec<u8> = b"\x1b%-12345X@PJL COMMENT PJL,LINUX,PDF\r\n\
@PJL JOB NAME=\"42\"\r\n\
@PJL SET JOBNAME=\"42\"\r\n\
@PJL SET TRACKID=\"dead01\"\r\n\
@PJL SET USERNAME=\"42\"\r\n\
@PJL SET DATE=\"2019/05/01\"\r\n\
@PJL SET TIME=\"12:34:56\"\r\n\
@PJL SET PAPER=A3\r\n\
@PJL SET DUPLEX=ON\r\n\
@PJL SET BINDING=LONGEDGE\r\n\
@PJL SET COPIES=3\r\n\
@PJL SET FITTOPAGESIZE=A3\r\n\
@PJL SET NUP=2\r\n\
PJL SET NUPPAGEORDER=DOWNTHENRIGHT\r\n\
@PJL SET PRINTPAGES=\"1-3\"\r\n\
@PJL SET AUTOTRAYCHANGE ON\r\n\
@PJL SET MEDIATYPE=PLAINNORECYCLED\r\n\
@PJL ENTER LANGUAGE=PDF\r\n"
        .to_vec();
    expected.extend_from_slice(&data);
    expected.extend_from_slice(END);
    assert_eq!(out, expected);
}

#[test]
fn pjl_stream_with_default_options() {
    let mut o = JobOptions::default();
    o.copies = 2;
    o.nup = 4;
    o.nuppageorder = 3;
    o.duplex = 2;
    let j = job(o, 1, true);
    let out = j.translate_for_printer_at(&[], 0, Vec::new(), "d", "t");
    let mut expected: Vec<u8> = b"\x1b%-12345X@PJL COMMENT PJL,LINUX,PDF\r\n\
@PJL JOB NAME=\"0\"\r\n\
@PJL SET JOBNAME=\"0\"\r\n\
@PJL SET TRACKID=\"\"\r\n\
@PJL SET USERNAME=\"0\"\r\n\
@PJL SET DATE=\"d\"\r\n\
@PJL SET TIME=\"t\"\r\n\
@PJL SET PAPER=A4\r\n\
@PJL SET DUPLEX=ON\r\n\
@PJL SET BINDING=SHORTEDGE\r\n\
@PJL SET QTY=2\r\n\
@PJL SET FITTOPAGESIZE=A4\r\n\
@PJL SET NUP=4\r\n\
PJL SET NUPPAGEORDER=DOWNTHENLEFT\r\n\
@PJL SET AUTOTRAYCHANGE ON\r\n\
@PJL SET MEDIATYPE=PLAINNORECYCLED\r\n\
@PJL ENTER LANGUAGE=PDF\r\n"
        .to_vec();
    expected.extend_from_slice(END);
    assert_eq!(out, expected);
    let plain = job(JobOptions::default(), 1, false).translate_for_printer_at(&[1], 5, Vec::new(), "", "");
    let text = String::from_utf8(plain).unwrap();
    assert!(text.contains("@PJL SET DUPLEX=OFF\r\n"));
    assert!(!text.contains("COPIES") && !text.contains("QTY") && !text.contains("FITTOPAGESIZE"));
    assert!(!text.contains("NUP") && !text.contains("PRINTPAGES"));
    assert!(text.contains("TRACKID=\"01\""));
}

#[test]
fn pjl_stream_is_dated_with_the_reading() {
    let mut j = job(JobOptions::default(), 1, false);
    let out = j.translate_for_printer(&[0xab], 9, b"PDF".to_vec(), at(2019, 3, 7, 9, 5, 1, 0)).unwrap();
    let text = String::from_utf8(out).unwrap();
    assert!(text.contains("@PJL SET DATE=\"2019/03/07\"\r\n@PJL SET TIME=\"09:05:01\"\r\n"));
    assert!(text.ends_with("PDF\x1b%-12345X@PJL EOJ\r\n\x1b%-12345X"));
    assert!(text.contains("TRACKID=\"ab\""));
    let same = j.translate_for_printer_at(&[0xab], 9, b"PDF".to_vec(), "2019/03/07", "09:05:01");
    assert_eq!(text.as_bytes(), &same[..]);
}

#[test]
fn uid_bytes_and_hex() {
    let uid = UID::from(vec![0x00, 0x0f, 0xa0, 0xff]);
    assert_eq!(uid.get_bytes(), vec![0x00, 0x0f, 0xa0, 0xff]);
    assert_eq!(uid.to_lower_hex(), "000fa0ff");
    assert_eq!(uid.to_lower_hex(), hex::encode(&uid.bytes));
    assert_eq!(TemporaryFile::path_for(&uid).path, "/tmp/000fa0ff");
}

#[test]
fn dispatcher_queue_of_one_user() {
    let task = |user_id: u32, uid: Vec<u8>, name: &str, color: bool| DispatcherTask {
        user_id,
        uid,
        info: JobInfo::new(name, "", color),
    };
    let queue = vec![task(1, vec![1], "a", true), task(2, vec![2], "b", false), task(1, vec![0x1f], "c", false)];
    let shown = get_dispatcher_queue(1, &queue);
    assert_eq!(shown.len(), 2);
    assert_eq!((shown[0].uid.as_str(), shown[0].filename.as_str(), shown[0].color), ("01", "a", true));
    assert_eq!((shown[1].uid.as_str(), shown[1].filename.as_str(), shown[1].color), ("1f", "c", false));
    assert!(get_dispatcher_queue(3, &queue).is_empty());
}

#[test]
fn long_filenames_are_cut() {
    assert_eq!(shorten_filename(None), "");
    assert_eq!(shorten_filename(Some(String::from("short.pdf"))), "short.pdf");
    let exact = "x".repeat(79);
    assert_eq!(shorten_filename(Some(exact.clone())), exact);
    let long = "y".repeat(80);
    assert_eq!(shorten_filename(Some(long)), format!("{}...", "y".repeat(79)));
    let wide = format!("{}{}", "z".repeat(77), "éé");
    assert_eq!(shorten_filename(Some(wide)), format!("{}é...", "z".repeat(77)));
}

#[test]
fn pdf_uploads_are_recognised() {
    assert!(looks_like_pdf(b"%PDF-1.5\n%..."));
    assert!(looks_like_pdf(b"\xef\xbb\xbf  %PDF-1.7"));
    assert!(!looks_like_pdf(b"%PDF-2.0"));
    assert!(!looks_like_pdf(b"%PDF"));
    assert!(!looks_like_pdf(b""));
    let body = PdfBody { bytes: b"%PDF-1.4".to_vec() };
    assert!(looks_like_pdf(&body.bytes));
}

#[test]
fn checked_pages_to_print_guards_the_count() {
    let mut options = JobOptions::default();
    options.copies = 3;
    options.nup = 2;
    let j = job(options, 5, false);
    assert_eq!(j.checked_pages_to_print(), Some(9));
    assert_eq!(j.checked_pages_to_print(), Some(j.pages_to_print()));
    let mut none_per_sheet = JobOptions::default();
    none_per_sheet.nup = 0;
    assert_eq!(job(none_per_sheet, 5, false).checked_pages_to_print(), None);
    let mut many = JobOptions::default();
    many.copies = 65535;
    many.a3 = true;
    // 65535 pages on A3 sheets, 65535 copies: more than a u32 holds
    assert_eq!(job(many, 65535, false).checked_pages_to_print(), None);
}

#[test]
fn dispatched_jobs_take_the_upload_choices() {
    assert_eq!(
        dispatched_filename(String::new(), String::from("Title")),
        "Title"
    );
    assert_eq!(
        dispatched_filename(String::from("a.pdf"), String::from("Title")),
        "a.pdf"
    );
    let fresh = dispatched_options(None, Some(true), None, Some(2), Some(true), Some(4), Some(String::from("Report")));
    assert!(fresh.keep);
    assert!(fresh.color);
    assert_eq!(fresh.displayname, "Report");
    assert!(!fresh.a3);
    assert_eq!(fresh.duplex, 2);
    assert_eq!(fresh.copies, 4);
    assert_eq!(fresh.nup, 1);
    let mut stored = JobOptions::default();
    stored.nup = 4;
    stored.a3 = true;
    stored.range = String::from("1-2");
    stored.color = true;
    stored.displayname = String::from("old");
    let kept = dispatched_options(Some(stored), None, Some(false), None, None, None, None);
    assert!(!kept.a3);
    assert!(kept.color);
    assert_eq!(kept.displayname, "old");
    assert_eq!(kept.nup, 4);
    assert_eq!(kept.copies, 1);
    assert_eq!(kept.range, "1-2");
    assert_eq!(DEFAULT_PREPROCESS, 1);
    assert_eq!(IMAGE_PREPROCESS, 2);
}

#[test]
fn upload_verdicts() {
    assert_eq!(upload_verdict(None, true), Ok(()));
    assert_eq!(upload_verdict(Some(true), true), Ok(()));
    assert_eq!(upload_verdict(Some(false), true), Err(UploadRefusal::WrongPassword));
    assert_eq!(upload_verdict(Some(false), false), Err(UploadRefusal::WrongPassword));
    assert_eq!(upload_verdict(None, false), Err(UploadRefusal::InvalidPdf));
    assert_eq!(UploadRefusal::WrongPassword.message(), "wrong password");
    assert_eq!(UploadRefusal::InvalidPdf.message(), "invalid pdf file");
}

#[test]
fn copy_outcomes() {
    assert_eq!(copy_outcome(false, Some(true)), CopyOutcome::NotFound);
    assert_eq!(copy_outcome(true, None), CopyOutcome::Duplicate);
    assert_eq!(copy_outcome(true, Some(false)), CopyOutcome::Duplicate);
    assert_eq!(copy_outcome(true, Some(true)), CopyOutcome::Redispatch);
    assert_eq!(CopyOutcome::NotFound.code(), 404);
    assert_eq!(CopyOutcome::Redispatch.code(), 202);
    assert_eq!(CopyOutcome::Duplicate.code(), 200);
    assert_eq!(CopyOutcome::NotFound.reason(), "Job not found");
    assert_eq!(CopyOutcome::Redispatch.reason(), "Started Processing");
    assert_eq!(CopyOutcome::Duplicate.reason(), "OK");
}

#[test]
fn logger_lines() {
    let log = Logger::named("dispatcher");
    assert!(log.enabled(LogLevel::Error));
    assert!(log.enabled(LogLevel::Debug));
    assert!(!log.enabled(LogLevel::Trace));
    assert_eq!(
        log.line("2019-01-02 03:04:05.000", LogLevel::Info, "started"),
        Some(String::from("2019-01-02 03:04:05.000 INFO dispatcher started"))
    );
    assert_eq!(log.line("t", LogLevel::Trace, "noise"), None);
    assert_eq!(LogLevel::Warn.as_str(), "WARN");
}

#[test]
fn dispatch_requests() {
    let (request, hex) = start_dispatch(4, vec![0xab, 0x01], Some(String::from("a.pdf")), None, Some(true), None, Some(false), Some(1), Some(3));
    assert_eq!(hex, "ab01");
    assert_eq!(request.user_id, 4);
    assert_eq!(request.uid, vec![0xab, 0x01]);
    assert_eq!(request.filename, "a.pdf");
    assert_eq!(request.displayname, Some(String::from("a.pdf")));
    assert_eq!(request.preprocess, 1);
    assert_eq!((request.keep, request.a3, request.color, request.duplex, request.copies), (Some(true), None, Some(false), Some(1), Some(3)));
    let long = "x".repeat(85);
    let (request, _) = start_dispatch(4, vec![], Some(long), Some(2), None, None, None, None, None);
    let cut = format!("{}...", "x".repeat(79));
    assert_eq!(request.filename, cut);
    assert_eq!(request.displayname, Some(cut));
    assert_eq!(request.preprocess, 2);
    let (request, hex) = start_dispatch(4, vec![], None, None, None, None, None, None, None);
    assert_eq!((request.filename.as_str(), hex.as_str()), ("", ""));
    assert_eq!(request.displayname, Some(String::new()));
}

fn at(year: i32, month: u32, day: u32, hour: u32, minute: u32, second: u32, nanosecond: u32) -> LocalTime {
    LocalTime { year, month, day, hour, minute, second, nanosecond }
}

#[test]
fn clock_readings_in_the_header() {
    fn date_time(t: LocalTime) -> Option<(String, String)> {
        let mut j = job(JobOptions::default(), 1, false);
        let out = j.translate_for_printer(&[], 0, Vec::new(), t)?;
        let text = String::from_utf8(out).unwrap();
        let d = text.find("DATE=\"").unwrap() + 6;
        let date = text[d..].split('"').next().unwrap().to_string();
        let t = text.find("TIME=\"").unwrap() + 6;
        let time = text[t..].split('"').next().unwrap().to_string();
        Some((date, time))
    }
    let pair = |d: &str, t: &str| Some((d.to_string(), t.to_string()));
    assert_eq!(date_time(at(2019, 12, 31, 23, 59, 59, 1_500_000_000)), pair("2019/12/31", "23:59:60"));
    assert_eq!(date_time(at(999, 1, 1, 0, 0, 0, 0)), pair("0999/01/01", "00:00:00"));
    assert_eq!(date_time(at(12345, 1, 1, 0, 0, 0, 0)), pair("+12345/01/", "0100:00:00"));
    // no such day
    assert_eq!(date_time(at(2019, 2, 30, 0, 0, 0, 0)), None);
    assert_eq!(date_time(at(2019, 1, 1, 24, 0, 0, 0)), None);
}
