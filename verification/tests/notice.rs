use openocd_supervisor::notice::Notice;

fn strings(items: &[&str]) -> Vec<String> {
    items.iter().map(|s| s.to_string()).collect()
}

#[test]
fn a_new_notice_has_a_headline_only() {
    let notice = Notice::new("Something happened");
    assert_eq!(notice.summary, "Something happened");
    assert_eq!(notice.reasons, Vec::<String>::new());
    assert_eq!(notice.help, None);
}

#[test]
fn reasons_keep_their_order() {
    let notice = Notice::new("x").reason("first".to_string()).reason("second".to_string());
    assert_eq!(notice.summary, "x");
    assert_eq!(notice.reasons, strings(&["first", "second"]));
    assert_eq!(notice.help, None);
}

#[test]
fn the_hint_is_replaced_not_added() {
    let notice = Notice::new("x").reason("r".to_string()).help("one").help("two");
    assert_eq!(notice.summary, "x");
    assert_eq!(notice.reasons, strings(&["r"]));
    assert_eq!(notice.help, Some("two".to_string()));
}

#[test]
fn a_port_conflict_names_the_port() {
    let notice = Notice::port_conflict("3333");
    assert_eq!(notice.summary, "OpenOCD reports: Address already in use");
    assert_eq!(
        notice.reasons,
        strings(&[
            "Maybe an old instance of OpenOCD?",
            "Maybe another program has port open on same machine?",
            "Port number: 3333"
        ])
    );
    assert_eq!(notice.help, None);
    assert_eq!(Notice::port_conflict("").reasons[2], "Port number: ");
    assert_eq!(Notice::port_conflict("unknown").reasons[2], "Port number: unknown");
}

#[test]
fn the_other_notices_have_their_texts() {
    let probe = Notice::probe_missing();
    assert_eq!(probe.summary, "OpenOCD failed to connect to PicoProbe.");
    assert_eq!(
        probe.reasons,
        strings(&["Maybe it's unplugged?", "Maybe your udev is misconfigured?"])
    );
    assert_eq!(probe.help, None);

    let config = Notice::config_missing();
    assert_eq!(config.summary, "OpenOCD can't find config.");
    assert_eq!(config.reasons, strings(&["Maybe you are launching with the wrong mode?"]));
    assert_eq!(config.help, None);

    let limit = Notice::connection_limit();
    assert_eq!(limit.summary, "OpenOCD reports too many connections");
    assert_eq!(limit.reasons, strings(&["Could be too many ghost connections."]));
    assert_eq!(limit.help, None);

    let spawn = Notice::spawn_failed();
    assert_eq!(spawn.summary, "Could not spawn process");
    assert_eq!(spawn.reasons, Vec::<String>::new());
    assert_eq!(spawn.help, Some("Maybe a problem with PATH?".to_string()));

    assert_eq!(Notice::stdout_missing(), Notice::new("Could not grab STDOUT. Weird :S"));
    assert_eq!(Notice::stderr_missing(), Notice::new("Could not grab STDERR... WTF?"));
    assert_eq!(
        Notice::reap_failed(),
        Notice::new("Could not terminate a conflicting OpenOCD process")
    );
    assert_eq!(Notice::kill_failed(), Notice::new("Could not terminate OpenOCD"));
}
