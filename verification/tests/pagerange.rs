use astaprint::jobs::options::pagerange::{is_well_numbered, normalize_range, PageRange};
use astaprint::pagerange::page_range_is_valid;

#[test]
fn check_page_ranges() {
    assert!(page_range_is_valid("1,2-3,7-20,21-29"));
    assert!(page_range_is_valid("1,3-4,7-10"));
    assert!(!page_range_is_valid("1, 3 -2,7-10"));
    assert!(!page_range_is_valid("1df3-4,7-10"));
    assert!(!page_range_is_valid("1-2-4,7-10, 11-12"));
}

#[test]
fn page_range_is_valid_edges() {
    assert!(!page_range_is_valid(""));
    assert!(page_range_is_valid("1-2,2-3"));
    assert!(page_range_is_valid("+1"));
    assert!(page_range_is_valid("65535"));
    assert!(!page_range_is_valid("65536"));
    assert!(!page_range_is_valid("1-"));
    assert!(!page_range_is_valid("2,1"));
    assert!(page_range_is_valid(" 1 - 3 , 4 "));
}

fn render(range: &str, pagecount: usize) -> Option<(String, usize)> {
    PageRange::new(range, pagecount).map(|r| (r.to_string(), r.pagecount()))
}

#[test]
fn no_err_from_str() {
    assert_eq!(render("1,2-3,7-20,21-29", 32), Some((String::from("1-3,7-29,"), 26)));
    assert_eq!(render("2,3", 5), Some((String::from("2-3,"), 2)));
    assert_eq!(render("2-3", 4), Some((String::from("2-3,"), 2)));
    assert_eq!(render("2-4", 4), Some((String::from("2-4,"), 3)));
    assert_eq!(render("1,3-4,7-10", 11), Some((String::from("1,3-4,7-10,"), 7)));
    assert_eq!(render("1, 3 -2,7-10", 4), Some((String::from("1,"), 1)));
    assert_eq!(render("1df3-4,7-10", 17), Some((String::from("7-10,"), 4)));
    assert_eq!(render("1-2-4,7-10, 11-12", 13), Some((String::from("7-12,"), 6)));
    assert_eq!(render("1-7,10,11,12-16", 13), Some((String::from("1-7,10-13,"), 11)));
    assert_eq!(render("", 1), Some((String::from(""), 1)));
    assert_eq!(render("-", 7), Some((String::from(""), 7)));
}

#[test]
fn page_range_selects_named_pages() {
    assert_eq!(render("5-3", 6), Some((String::from("3,"), 1)));
    assert_eq!(render(" 2 , 4-5 ", 9), Some((String::from("4-5,"), 2)));
    assert_eq!(render("+3", 5), Some((String::from("3,"), 1)));
    assert_eq!(render("3-99", 5), Some((String::from("3-5,"), 3)));
    assert_eq!(render("1, 5", 6), Some((String::from("1,"), 1)));
    assert!(PageRange::new("9", 3).is_none());
    assert!(PageRange::new("abc", 3).is_none());
    assert_eq!(render("", 0), Some((String::from(""), 0)));
}

#[test]
fn normal_form_reads_back() {
    for (range, pagecount) in [("1,2-3,7-20,21-29", 32usize), ("1,3-4,7-10", 11), ("2", 9)] {
        let once = normalize_range(range, pagecount);
        let twice = normalize_range(&once, pagecount);
        assert_eq!(once, twice);
        assert!(page_range_is_valid(&once));
    }
    assert_eq!(normalize_range("1,2-3,7-20,21-29", 32), "1-3,7-29");
    assert_eq!(normalize_range("9", 3), "");
    assert_eq!(normalize_range("-", 3), "");
}

#[test]
fn page_zero_guard() {
    assert!(is_well_numbered(""));
    assert!(is_well_numbered("-"));
    assert!(is_well_numbered("1,3-4"));
    assert!(is_well_numbered("x"));
    assert!(!is_well_numbered("0"));
    assert!(!is_well_numbered("2, 0-3"));
    assert!(!is_well_numbered("3-0"));
    assert!(PageRange::new("1,3", 4).unwrap().can_render());
    assert!(PageRange::new("1-3", 4).unwrap().can_render());
    assert!(!PageRange::new("4", 4).unwrap().can_render());
    assert!(!PageRange::new("1,4", 4).unwrap().can_render());
}
