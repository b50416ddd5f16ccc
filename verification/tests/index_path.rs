use dateindex::calendar::ParsedDate;
use dateindex::index_path::{decimal_text, directory_for, index_entry, push_segment, target_path};

fn date(year: u32, month: u32, day: u32) -> ParsedDate {
    ParsedDate::from_ymd(year, month, day).unwrap()
}

#[test]
fn entry_is_root_year_month_day_name() {
    assert_eq!(
        target_path("/idx", date(2014, 11, 28), "/some/where/report.pdf"),
        Some(String::from("/idx/2014/11/28/report.pdf"))
    );
}

#[test]
fn month_and_day_are_not_padded() {
    assert_eq!(
        target_path("/idx", date(2014, 1, 5), "/watched/a.txt"),
        Some(String::from("/idx/2014/1/5/a.txt"))
    );
    assert_eq!(
        target_path("/idx", date(987, 3, 9), "a.txt"),
        Some(String::from("/idx/987/3/9/a.txt"))
    );
}

#[test]
fn path_without_a_name_gives_nothing() {
    let d = date(2014, 11, 28);
    assert_eq!(target_path("/idx", d, ""), None);
    assert_eq!(target_path("/idx", d, "/"), None);
    assert_eq!(target_path("/idx", d, "/watched/.."), None);
}

#[test]
fn name_is_the_final_component() {
    let d = date(2014, 11, 28);
    assert_eq!(target_path("/idx", d, "/a/b/c/"), Some(String::from("/idx/2014/11/28/c")));
    assert_eq!(target_path("/idx", d, "plain"), Some(String::from("/idx/2014/11/28/plain")));
    assert_ne!(target_path("/idx", d, "/a/b"), Some(String::from("/idx/2014/11/28//a/b")));
}

#[test]
fn entry_agrees_with_pushing_on_a_path_buffer() {
    let d = date(2014, 11, 28);
    for root in ["/idx", "/idx/", "idx", "", "/"] {
        let mut pb = std::path::PathBuf::from(root);
        pb.push("2014");
        pb.push("11");
        pb.push("28");
        pb.push("report.pdf");
        assert_eq!(index_entry(root, d, "report.pdf"), pb.to_str().unwrap(), "{root:?}");
    }
}

#[test]
fn directory_is_the_parent_of_the_entry() {
    let d = date(2014, 11, 28);
    let dir = directory_for("/idx", d);
    assert_eq!(dir, "/idx/2014/11/28");
    let entry = index_entry("/idx", d, "report.pdf");
    assert_eq!(std::path::Path::new(&entry).parent().unwrap().to_str().unwrap(), dir);
}

#[test]
fn segments_are_joined_by_one_slash() {
    let mut p = String::from("a");
    push_segment(&mut p, "b");
    assert_eq!(p, "a/b");
    push_segment(&mut p, "c/");
    assert_eq!(p, "a/b/c/");
    push_segment(&mut p, "d");
    assert_eq!(p, "a/b/c/d");
    let mut empty = String::new();
    push_segment(&mut empty, "x");
    assert_eq!(empty, "x");
}

#[test]
fn decimal_numerals() {
    assert_eq!(decimal_text(0), "0");
    assert_eq!(decimal_text(7), "7");
    assert_eq!(decimal_text(10), "10");
    assert_eq!(decimal_text(2014), "2014");
    assert_eq!(decimal_text(4294967295), "4294967295");
    for n in [1u32, 9, 11, 99, 100, 101, 12345, 1000000] {
        assert_eq!(decimal_text(n), n.to_string());
    }
}
