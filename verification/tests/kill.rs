use openocd_supervisor::kill::{process_kill, KillOutcome};

fn listing(names: &[Option<&str>]) -> Option<Vec<Option<String>>> {
    Some(names.iter().map(|name| name.map(|n| n.to_string())).collect())
}

#[test]
fn processes_of_that_name_are_picked() {
    let names = listing(&[Some("init"), Some("openocd"), Some("bash"), Some("openocd")]);
    assert_eq!(process_kill(&names, &"openocd".to_string()), vec![1, 3]);
}

#[test]
fn the_name_must_be_equal() {
    let names = listing(&[
        Some("openocd "),
        Some("OpenOCD"),
        Some("openocd-0.11"),
        Some("rpi-openocd"),
        Some("openoc"),
        Some(""),
    ]);
    assert_eq!(process_kill(&names, &"openocd".to_string()), Vec::<usize>::new());
}

#[test]
fn a_process_without_a_readable_name_is_left_alone() {
    let names = listing(&[None, Some("openocd"), None]);
    assert_eq!(process_kill(&names, &"openocd".to_string()), vec![1]);
}

#[test]
fn an_empty_listing_gives_nothing_to_do() {
    assert_eq!(process_kill(&listing(&[]), &"openocd".to_string()), Vec::<usize>::new());
}

#[test]
fn a_failed_listing_gives_nothing_to_do() {
    assert_eq!(process_kill(&None, &"openocd".to_string()), Vec::<usize>::new());
}

#[test]
fn every_process_may_be_picked() {
    let names = listing(&[Some("a"), Some("a"), Some("a")]);
    assert_eq!(process_kill(&names, &"a".to_string()), vec![0, 1, 2]);
}

#[test]
fn only_a_failed_request_is_fatal() {
    assert!(KillOutcome::Failed.is_fatal());
    assert!(!KillOutcome::Delivered.is_fatal());
    assert!(!KillOutcome::Vanished.is_fatal());
}
