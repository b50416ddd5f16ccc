use dateindex::dispatch::{handle, FsEvent};
use dateindex::link_plan::{LinkError, Profile};

fn s(text: &str) -> String {
    String::from(text)
}

#[test]
fn create_write_and_chmod_link_their_path() {
    let events = [
        FsEvent::Create(s("/watched/report_20141128.pdf")),
        FsEvent::Write(s("/watched/report_20141128.pdf")),
        FsEvent::Chmod(s("/watched/report_20141128.pdf")),
    ];
    for evt in events.iter() {
        let plan = handle("/idx", evt).unwrap().unwrap();
        assert_eq!(plan.profile, Profile::Link);
        assert_eq!(plan.entry, "/idx/2014/11/28/report_20141128.pdf");
        assert_eq!(plan.source, "/watched/report_20141128.pdf");
    }
}

#[test]
fn remove_unlinks_its_path() {
    let evt = FsEvent::Remove(s("/watched/report_20141128.pdf"));
    let plan = handle("/idx", &evt).unwrap().unwrap();
    assert_eq!(plan.profile, Profile::Unlink);
    assert_eq!(plan.entry, "/idx/2014/11/28/report_20141128.pdf");
}

#[test]
fn rename_links_the_new_path_only() {
    let evt = FsEvent::Rename(s("/watched/old_20100101.pdf"), s("/watched/new_20141128.pdf"));
    let plan = handle("/idx", &evt).unwrap().unwrap();
    assert_eq!(plan.profile, Profile::Link);
    assert_eq!(plan.entry, "/idx/2014/11/28/new_20141128.pdf");
    assert_eq!(plan.source, "/watched/new_20141128.pdf");
    let undated = FsEvent::Rename(s("/watched/old_20100101.pdf"), s("/watched/new.pdf"));
    assert!(handle("/idx", &undated).is_none());
}

#[test]
fn other_events_are_ignored() {
    assert!(handle("/idx", &FsEvent::Other).is_none());
}

#[test]
fn paths_without_a_key_are_dropped() {
    assert!(handle("/idx", &FsEvent::Create(s("/watched/report.pdf"))).is_none());
    assert!(handle("/idx", &FsEvent::Remove(s("/watched/20141128"))).is_none());
}

#[test]
fn key_that_is_no_date_is_reported() {
    let evt = FsEvent::Create(s("/watched/report_99999999.pdf"));
    let r = handle("/idx", &evt).unwrap();
    assert!(matches!(r, Err(LinkError::DateParse(_))));
}

#[test]
fn key_in_a_directory_name_dates_the_file() {
    let evt = FsEvent::Create(s("/watched/20141128/notes.txt"));
    let plan = handle("/idx", &evt).unwrap().unwrap();
    assert_eq!(plan.entry, "/idx/2014/11/28/notes.txt");
    let dir = FsEvent::Create(s("/watched/20141128/"));
    let plan = handle("/idx", &dir).unwrap().unwrap();
    assert_eq!(plan.entry, "/idx/2014/11/28/20141128");
}
