use std::time::{Duration, SystemTime};
use astaprint::jobs::info::JobInfo;
use astaprint::jobs::options::{JobOptions, JobOptionsUpdate};
use astaprint::jobs::Job;
use astaprint::printers::accounting::{Accounting, CounterReading};
use astaprint::printers::queue::delete::{delete_queue, delete_queue_as_admin, QueueRefusal};
use astaprint::printers::queue::get::{get_queue_as_admin, WorkerQueueResponse, WorkerTaskResponse};
use astaprint::printers::queue::post::{post_to_queue, post_to_queue_handler};
use astaprint::printers::queue::task::{WorkerCommand, WorkerTask};
use astaprint::printers::queue::timeout::TimeOut;
use astaprint::printers::queue::worker::{
    options_for_print, Closing, CommandEffect, FetchEffect, FetchOutcome, PollEffect, SessionEnd, Step,
    WorkerSession,
};
use astaprint::printers::snmp::counter::CounterValues;
use astaprint::printers::snmp::{
    checked_vec_from_oid_str, vec_from_oid_str, Counter, EnergyControl, EnergyCtl, PrinterInterface, QueueControl, QueueCtl,
};
use astaprint::printers::update::{Printer, PrinterUpdate};

fn reading(total: i64, print_total: i64, print_bw: i64) -> CounterReading {
    CounterReading { total, print_total, print_bw }
}

fn job(color: bool, pagecount: u16) -> Job {
    let mut info = JobInfo::new("a.pdf", "", false);
    info.pagecount = pagecount;
    let mut options = JobOptions::default();
    options.color = color;
    Job { id: 11, timestamp: 0, info, options }
}

fn commands(cs: &[WorkerCommand]) -> String {
    format!("{:?}", cs)
}

#[test]
fn accounting_charges_printed_pages() {
    let mut acc = Accounting::new(3, 44, reading(100, 80, 60));
    assert_eq!(acc.value(), 0);
    assert_eq!(acc.credit(100), 100);
    assert_eq!(acc.pages_left(), 20);
    assert!(!acc.not_enough_credit());
    acc.start(job(false, 3), reading(100, 80, 60), 100);
    assert!(!acc.update(Some(reading(100, 80, 60))));
    assert!(!acc.update(None));
    assert!(acc.update(Some(reading(102, 82, 61))));
    // one black and white page (5) and one colour page (20)
    assert_eq!(acc.value(), -25);
    assert_eq!(acc.pages_left(), 15);
    assert!(acc.finished().is_none());
    assert!(acc.update(Some(reading(103, 83, 62))));
    assert_eq!(acc.value(), -30);
    let entry = acc.finished().unwrap();
    assert_eq!((entry.user_id, entry.value, entry.job_id, entry.pages, entry.colored, entry.device_id), (3, -30, 11, 3, 21, 44));
    assert_eq!(acc.value(), 0);
    assert!(acc.finish().is_none());
}

#[test]
fn accounting_colour_price_and_credit_limit() {
    let mut acc = Accounting::new(1, 2, reading(0, 0, 0));
    acc.start(job(true, 1), reading(0, 0, 0), 30);
    assert_eq!(acc.pages_left(), 1);
    assert!(!acc.not_enough_credit());
    assert_eq!(acc.credit(19), 19);
    assert_eq!(acc.pages_left(), 0);
    assert!(acc.not_enough_credit());
    assert_eq!(acc.credit(-7), -7);
    assert_eq!(acc.pages_left(), 0);
    assert_eq!(acc.credit(-45), -45);
    assert_eq!(acc.pages_left(), -2);
    assert!(acc.not_enough_credit());
}

#[test]
fn worker_session_prints_in_order() {
    let mut s = WorkerSession::new();
    assert!(matches!(s.next_step(), Step::Idle));
    let two_copies = JobOptionsUpdate {
        duplex: None,
        copies: Some(2),
        collate: None,
        keep: None,
        a3: None,
        nup: None,
        nuppageorder: None,
        range: None,
    };
    assert_eq!(s.apply_command(WorkerCommand::Print(5, None)), CommandEffect::Continue);
    assert_eq!(s.apply_command(WorkerCommand::Print(6, Some(two_copies))), CommandEffect::Continue);
    assert_eq!(s.apply_command(WorkerCommand::HeartBeat), CommandEffect::RefreshTimeout);
    assert!(matches!(s.next_step(), Step::Fetch(5, None)));
    assert_eq!(s.after_fetch(5, None, FetchOutcome::Sent(true)), FetchEffect::RefreshTimeout);
    assert!(matches!(s.next_step(), Step::Poll));
    assert_eq!(s.after_poll(false, false, false), PollEffect::Nothing);
    assert_eq!(s.after_poll(true, false, false), PollEffect::RefreshTimeout);
    assert_eq!(s.after_poll(true, false, true), PollEffect::KeepJob(5));
    let options = match s.next_step() {
        Step::Fetch(6, options) => options,
        other => panic!("unexpected step {:?}", other),
    };
    assert_eq!(options.as_ref().and_then(|o| o.copies), Some(2));
    // the counters could not be read: the job goes back to the front
    assert_eq!(s.after_fetch(6, options, FetchOutcome::NoCounter), FetchEffect::Stop);
    let options = match s.next_step() {
        Step::Fetch(6, options) => options,
        other => panic!("unexpected step {:?}", other),
    };
    assert_eq!(options_for_print(JobOptions::default(), options.clone()).copies, 2);
    assert_eq!(options_for_print(JobOptions::default(), None).copies, 1);
    assert_eq!(s.after_fetch(6, options, FetchOutcome::Sent(false)), FetchEffect::RefreshTimeout);
    assert_eq!(s.after_poll(true, false, true), PollEffect::DeleteJob(6));
    assert_eq!(s.after_fetch(8, None, FetchOutcome::NotFound), FetchEffect::Continue);
    assert_eq!(s.after_fetch(8, None, FetchOutcome::ShortOfCredit), FetchEffect::Stop);
    assert_eq!(s.after_fetch(8, None, FetchOutcome::PrintFailed), FetchEffect::Stop);
    assert!(matches!(s.next_step(), Step::Idle));
    assert_eq!(s.apply_command(WorkerCommand::Hungup), CommandEffect::Continue);
    assert!(matches!(s.next_step(), Step::Stop));
    assert_eq!(s.apply_command(WorkerCommand::Cancel), CommandEffect::Stop);
    assert_eq!(s.after_fetch(7, None, FetchOutcome::Sent(false)), FetchEffect::RefreshTimeout);
    assert_eq!(s.after_poll(true, true, true), PollEffect::Stop);
}

fn task(user_id: u32, uid: Vec<u8>) -> WorkerTask {
    WorkerTask { user_id, uid }
}

#[test]
fn queue_requests() {
    let empty: Vec<WorkerTask> = Vec::new();
    let mine = vec![task(1, vec![0xaa, 0x01])];
    let fresh: Vec<u8> = (1..=20).collect();
    let post = post_to_queue_handler(1, Some(9), None, &empty, fresh.clone()).unwrap();
    assert_eq!(post.uid_hex, "0102030405060708090a0b0c0d0e0f1011121314");
    assert_eq!(post.new_task.as_ref().map(|t| (t.user_id, t.uid.clone())), Some((1, fresh.clone())));
    assert_eq!(commands(&post.commands), "[Print(9, None), Hungup]");
    let post = post_to_queue_handler(1, None, None, &empty, fresh.clone()).unwrap();
    assert!(post.commands.is_empty());
    let keep = JobOptionsUpdate {
        duplex: None,
        copies: None,
        collate: None,
        keep: Some(true),
        a3: None,
        nup: None,
        nuppageorder: None,
        range: None,
    };
    let post = post_to_queue_handler(1, Some(3), Some(keep.clone()), &mine, fresh.clone()).unwrap();
    assert_eq!(post.uid_hex, "aa01");
    assert!(post.new_task.is_none());
    assert_eq!(post.commands.len(), 1);
    match &post.commands[0] {
        WorkerCommand::Print(3, Some(o)) => assert_eq!(o.keep, Some(true)),
        other => panic!("unexpected command {:?}", other),
    }
    let post = post_to_queue_handler(1, None, Some(keep), &mine, fresh.clone()).unwrap();
    assert_eq!(commands(&post.commands), "[HeartBeat]");
    let refused = post_to_queue_handler(2, Some(3), None, &mine, fresh.clone()).unwrap_err();
    assert_eq!(refused, QueueRefusal::QueueLocked);
    assert_eq!(refused.code(), 423);
    assert_eq!(post_to_queue(1, None, None, None, fresh.clone()).unwrap_err().code(), 404);
    assert_eq!(post_to_queue(1, Some(2), None, Some(&mine), fresh).unwrap().uid_hex, "aa01");
}

#[test]
fn queue_cancellation() {
    let empty: Vec<WorkerTask> = Vec::new();
    let mine = vec![task(1, vec![0xaa, 0x01])];
    assert_eq!(delete_queue(1, None), Err(QueueRefusal::DeviceNotFound));
    assert_eq!(delete_queue(1, Some(&empty)), Err(QueueRefusal::TaskNotFound));
    assert_eq!(delete_queue(1, Some(&mine)), Ok(vec![0xaa, 0x01]));
    assert_eq!(delete_queue(2, Some(&mine)), Err(QueueRefusal::Unauthorized));
    assert_eq!(QueueRefusal::Unauthorized.code(), 401);
    assert_eq!(QueueRefusal::TaskNotFound.code(), 424);
    assert_eq!(delete_queue_as_admin(None), Err(QueueRefusal::DeviceNotFound));
    assert_eq!(delete_queue_as_admin(Some(&empty)), Err(QueueRefusal::TaskNotFound));
    assert_eq!(delete_queue_as_admin(Some(&mine)), Ok(vec![0xaa, 0x01]));
}

#[test]
fn queue_overview() {
    let empty: Vec<WorkerTask> = Vec::new();
    let mine = vec![task(7, vec![0x0b])];
    assert!(get_queue_as_admin(None).is_none());
    assert!(get_queue_as_admin(Some(&empty)).unwrap().is_none());
    let shown = get_queue_as_admin(Some(&mine)).unwrap().unwrap();
    assert_eq!((shown.user_id, shown.uid.as_str()), (7, "0b"));
    let r = WorkerTaskResponse::from(&mine[0]);
    let q = WorkerQueueResponse { incoming: vec![], processing: vec![r] };
    assert_eq!(q.processing[0].uid, "0b");
}

#[test]
fn timeout_expiry() {
    let start = SystemTime::now();
    let mut t = TimeOut::new(60, start);
    assert_eq!(t.value, 60);
    assert_eq!(t.begin, start);
    assert!(!t.expired(None));
    assert!(!t.expired(Some(60_000_000_000)));
    assert!(t.expired(Some(60_000_000_001)));
    assert!(!t.check());
    t.set_value_in_s(0);
    assert_eq!(t.value, 0);
    assert!(t.expired(Some(1)));
    let later = start + Duration::from_secs(5);
    t.refresh(later);
    assert_eq!(t.value, 0);
    assert_eq!(t.begin, later);
    let mut stale = TimeOut::new(1, SystemTime::now() - Duration::from_secs(10));
    assert!(stale.check());
}

#[test]
fn counter_difference() {
    let a = CounterValues { total: 10, print_black: 7, print_color: Some(3), copy_black: 0, copy_color: None };
    let b = CounterValues { total: 4, print_black: 3, print_color: Some(1), copy_black: 0, copy_color: Some(2) };
    let d = a.sub(b);
    assert_eq!((d.total, d.print_black, d.print_color, d.copy_black, d.copy_color), (6, 4, Some(2), 0, None));
}

#[test]
fn oids_are_read() {
    assert_eq!(vec_from_oid_str("1.3.6.1.2.1.43"), vec![1, 3, 6, 1, 2, 1, 43]);
    assert_eq!(vec_from_oid_str("18446744073709551615"), vec![u64::MAX]);
    assert_eq!(checked_vec_from_oid_str("1.3.6"), Some(vec![1, 3, 6]));
    assert_eq!(checked_vec_from_oid_str("1.x.6"), None);
    assert_eq!(checked_vec_from_oid_str("1..6"), None);
    assert_eq!(checked_vec_from_oid_str("18446744073709551616"), None);
    let q = QueueControl::from(QueueCtl { oid: String::from("1.2"), cancel: 3, clear: 4 });
    assert_eq!((q.oid, q.cancel, q.clear), (vec![1, 2], 3, 4));
    let e = EnergyControl::from(EnergyCtl { oid: String::from("9"), wake: 1, sleep: 2 });
    assert_eq!((e.oid, e.wake, e.sleep), (vec![9], 1, 2));
    let row = Counter {
        total: String::from("1.1"),
        print_black: String::from("1.2"),
        print_color: None,
        copy_black: String::from("1.3"),
        copy_color: Some(String::from("1.4")),
    };
    let i = PrinterInterface::from_rows(
        row,
        QueueCtl { oid: String::from("2.1"), cancel: 0, clear: 1 },
        EnergyCtl { oid: String::from("3.1"), wake: 5, sleep: 6 },
        String::from("public"),
        String::from("10.0.0.1"),
    );
    assert_eq!(i.counter.total, vec![1, 1]);
    assert_eq!(i.counter.print_color, None);
    assert_eq!(i.counter.copy_color, Some(vec![1, 4]));
    assert_eq!(i.queue_ctl.oid, vec![2, 1]);
    assert_eq!(i.energy_ctl.wake, 5);
    assert_eq!((i.ip.as_str(), i.community.as_str()), ("10.0.0.1", "public"));
}

fn printer() -> Printer {
    Printer {
        id: 1,
        hostname: String::from("p1"),
        ip: String::from("10.0.0.2"),
        community: String::from("public"),
        mac: String::from("aa"),
        device_id: 40,
        location: String::from("hall"),
        has_a3: false,
        coin_operated: false,
        description: String::from(""),
        watch_toner: false,
        watch_tray1: false,
        watch_tray2: false,
        watch_tray3: false,
        watch_interval: 60,
    }
}

#[test]
fn printer_update_applies_given_details() {
    let update = PrinterUpdate {
        hostname: Some(String::from("p2")),
        ip: None,
        community: None,
        mac: None,
        device_id: Some(41),
        location: None,
        has_a3: Some(true),
        coin_operated: None,
        description: Some(String::from("new")),
        watch_toner: None,
        watch_tray1: Some(true),
        watch_tray2: None,
        watch_tray3: None,
        watch_interval: Some(5),
    };
    let p = update.update(printer());
    assert_eq!((p.id, p.hostname.as_str(), p.ip.as_str(), p.device_id, p.has_a3), (1, "p2", "10.0.0.2", 41, true));
    assert_eq!((p.description.as_str(), p.watch_tray1, p.watch_tray2, p.watch_interval), ("new", true, false, 5));
    let again = update.update(p.clone());
    assert_eq!((again.hostname, again.device_id, again.watch_interval), (p.hostname, p.device_id, p.watch_interval));
}

#[test]
fn accounting_guards() {
    let mut acc = Accounting::new(3, 44, reading(100, 80, 60));
    assert!(acc.can_update(&reading(102, 82, 61)));
    assert!(!acc.can_update(&reading(i64::MAX, i64::MAX, i64::MIN)));
    assert!(!acc.can_update(&reading(200, 80 + 200_000_000, 60)));
    assert!(acc.can_finish());
    acc.start(job(false, 3), reading(100, 80, 60), 100);
    assert!(acc.update(Some(reading(101, 81, 61))));
    assert!(acc.can_finish());
    let mut orphan = Accounting::new(1, 1, reading(0, 0, 0));
    assert!(orphan.update(Some(reading(1, 1, 1))));
    assert_eq!(orphan.value(), -5);
    // a charge without a job cannot be written to the journal
    assert!(!orphan.can_finish());
    assert_eq!(orphan.last_total(), 1);
    assert!(orphan.balance_fits());
    assert!(orphan.can_check_finished());
    assert_eq!(orphan.credit(i32::MIN), i32::MIN);
    assert!(!orphan.balance_fits());
    let far = Accounting::new(1, 1, reading(0, i64::MAX, i64::MIN));
    assert!(!far.can_check_finished());
}

#[test]
fn session_closing_steps() {
    let mut end = SessionEnd::new();
    let steps: Vec<Closing> = (0..12).map(|_| end.next()).collect();
    let mut expected = vec![Closing::ClearQueue; 4];
    expected.push(Closing::Settle(3000));
    expected.extend(vec![Closing::ReadCounters; 4]);
    expected.push(Closing::Finish);
    expected.extend(vec![Closing::Done; 2]);
    assert_eq!(steps, expected);
}
