use openocd_supervisor::line_handling::{LineError, LineSuccess};
use openocd_supervisor::notice::Notice;
use openocd_supervisor::state::ArgMode;
use openocd_supervisor::supervisor::{
    Action, App, Directive, Event, Phase, Stage, COOL_DOWN_MILLIS,
};

fn strings(items: &[&str]) -> Vec<String> {
    items.iter().map(|s| s.to_string()).collect()
}

fn quietly(action: Action) -> Directive {
    Directive { notice: None, action }
}

fn loudly(notice: Notice, action: Action) -> Directive {
    Directive { notice: Some(notice), action }
}

fn launch(arguments: &[&str]) -> Action {
    Action::Launch {
        program: "/opt/rpi-openocd/src/openocd".to_string(),
        arguments: strings(arguments),
    }
}

fn line(text: &str) -> Event {
    Event::Line(text.to_string())
}

/// A supervisor whose daemon runs, started as `rpi-openocd -d3`.
fn running() -> App {
    let mut app = App::new(strings(&["rpi-openocd", "-d3"])).unwrap();
    assert_eq!(app.start(), quietly(launch(&["-d3"])));
    assert_eq!(app.step(Event::Spawned), quietly(Action::Receive));
    assert_eq!(app.stage, Stage::Watching);
    app
}

#[test]
fn the_rest_between_two_daemons_is_one_second() {
    assert_eq!(COOL_DOWN_MILLIS, 1000);
}

#[test]
fn a_new_supervisor_has_not_read_its_command_line() {
    let app = App::new(strings(&["rpi-openocd-picoprobe", "-d3"])).unwrap();
    assert_eq!(app.args, strings(&["rpi-openocd-picoprobe", "-d3"]));
    assert_eq!(app.subprocess_args, Vec::<String>::new());
    assert_eq!(app.arg_mode, ArgMode::Plain);
    assert!(!app.restart_openocd);
    assert_eq!(app.stage, Stage::Launching);
    assert!(!app.line_handler.address_already_in_use);
    assert_eq!(app.line_handler.address_already_in_use_port, "unknown");
}

#[test]
fn the_start_settles_mode_and_arguments() {
    let mut app = App::new(strings(&["rpi-openocd-picoprobe", "-d3"])).unwrap();
    let directive = app.start();
    let expected = [
        "-s",
        "/opt/rpi-openocd/tcl",
        "-f",
        "interface/picoprobe.cfg",
        "-f",
        "target/rp2040.cfg",
        "-d3",
    ];
    assert_eq!(directive, quietly(launch(&expected)));
    assert_eq!(app.arg_mode, ArgMode::Picoprobe);
    assert_eq!(app.subprocess_args, strings(&expected));
    assert_eq!(app.stage, Stage::Launching);
    assert_eq!(app.to_phase(), Phase::Launching);
}

#[test]
fn the_start_may_be_repeated() {
    let mut app = App::new(strings(&["x", "--general-rp2040-mode", "-c", "init"])).unwrap();
    let first = app.start();
    let second = app.start();
    assert_eq!(first, second);
    assert_eq!(
        app.subprocess_args,
        strings(&["-s", "/opt/rpi-openocd/tcl", "-f", "target/rp2040.cfg", "-c", "init"])
    );
}

#[test]
fn stages_belong_to_phases() {
    assert_eq!(Stage::Launching.to_phase(), Phase::Launching);
    assert_eq!(Stage::Watching.to_phase(), Phase::Running);
    assert_eq!(Stage::Reaping.to_phase(), Phase::Running);
    assert_eq!(Stage::Killing.to_phase(), Phase::Restarting);
    assert_eq!(Stage::Draining.to_phase(), Phase::Restarting);
    assert_eq!(Stage::Cooling.to_phase(), Phase::Restarting);
    assert_eq!(Stage::Terminated.to_phase(), Phase::Terminated);
}

#[test]
fn a_daemon_that_cannot_be_started_ends_the_supervisor() {
    let mut app = App::new(strings(&["x"])).unwrap();
    app.start();
    assert_eq!(app.step(Event::SpawnFailed), loudly(Notice::spawn_failed(), Action::Exit));
    assert_eq!(app.stage, Stage::Terminated);
}

#[test]
fn a_daemon_without_standard_output_ends_the_supervisor() {
    let mut app = App::new(strings(&["x"])).unwrap();
    app.start();
    assert_eq!(
        app.step(Event::StdoutUnavailable),
        loudly(Notice::stdout_missing(), Action::Exit)
    );
    assert_eq!(app.stage, Stage::Terminated);
}

#[test]
fn a_daemon_without_standard_error_ends_the_supervisor() {
    let mut app = App::new(strings(&["x"])).unwrap();
    app.start();
    assert_eq!(
        app.step(Event::StderrUnavailable),
        loudly(Notice::stderr_missing(), Action::Exit)
    );
    assert_eq!(app.stage, Stage::Terminated);
}

#[test]
fn a_clean_line_is_answered_by_reading_on() {
    let mut app = running();
    assert_eq!(app.step(line("Info : Listening on port 6666 for tcl connections")),
        quietly(Action::Receive));
    assert_eq!(app.stage, Stage::Watching);
    assert!(!app.restart_openocd);
}

#[test]
fn a_port_conflict_reaps_and_keeps_the_daemon() {
    let mut app = running();
    let directive =
        app.step(line("Error: bind() failed for port 3333: Address already in use"));
    assert_eq!(
        directive,
        loudly(Notice::port_conflict("3333"), Action::Reap { name: "openocd".to_string() })
    );
    let notice = directive.notice.unwrap();
    assert_eq!(notice.reasons[2], "Port number: 3333");
    assert_eq!(app.stage, Stage::Reaping);
    assert_eq!(app.to_phase(), Phase::Running);
    assert!(!app.restart_openocd);
    assert!(app.line_handler.address_already_in_use);
    assert_eq!(app.line_handler.address_already_in_use_port, "3333");

    assert_eq!(app.step(Event::Reaped), quietly(Action::Receive));
    assert_eq!(app.stage, Stage::Watching);
    assert_eq!(app.to_phase(), Phase::Running);
}

#[test]
fn a_second_port_conflict_is_handled_like_the_first() {
    let mut app = running();
    let text = "Error: bind() failed for port 3333: Address already in use";
    let first = app.step(line(text));
    assert_eq!(app.step(Event::Reaped), quietly(Action::Receive));
    let second = app.step(line(text));
    assert_eq!(first, second);
    assert_eq!(app.stage, Stage::Reaping);
}

#[test]
fn a_conflicting_process_that_cannot_be_terminated_ends_the_supervisor() {
    let mut app = running();
    app.step(line("Error: bind() failed for port 3333: Address already in use"));
    assert_eq!(app.step(Event::ReapFailed), loudly(Notice::reap_failed(), Action::Exit));
    assert_eq!(app.stage, Stage::Terminated);
}

#[test]
fn a_refused_connection_restarts_the_daemon_with_the_same_arguments() {
    let mut app = App::new(strings(&["rpi-openocd", "--picoprobe-mode", "-d3"])).unwrap();
    let first_launch = app.start();
    assert_eq!(app.step(Event::Spawned), quietly(Action::Receive));

    let directive = app.step(line("...rejected 'gdb' connection, no more connections allowed"));
    assert_eq!(directive, loudly(Notice::connection_limit(), Action::KillChild));
    assert_eq!(app.stage, Stage::Killing);
    assert_eq!(app.to_phase(), Phase::Restarting);
    assert!(!app.restart_openocd);

    assert_eq!(app.step(Event::Killed), quietly(Action::Receive));
    assert_eq!(app.stage, Stage::Draining);
    assert_eq!(app.step(Event::Closed), quietly(Action::Pause { millis: 1000 }));
    assert_eq!(app.stage, Stage::Cooling);
    assert_eq!(app.to_phase(), Phase::Restarting);

    let second_launch = app.step(Event::Rested);
    assert_eq!(second_launch, first_launch);
    assert_eq!(
        second_launch,
        quietly(launch(&[
            "-s",
            "/opt/rpi-openocd/tcl",
            "-f",
            "interface/picoprobe.cfg",
            "-f",
            "target/rp2040.cfg",
            "-d3"
        ]))
    );
    assert_eq!(app.stage, Stage::Launching);
    assert_eq!(app.step(Event::Spawned), quietly(Action::Receive));
    assert_eq!(app.stage, Stage::Watching);
}

#[test]
fn lines_of_a_daemon_that_is_replaced_are_thrown_away() {
    let mut app = running();
    app.step(line("Error: rejected 'gdb' connection, no more connections allowed"));
    assert_eq!(app.step(Event::Killed), quietly(Action::Receive));
    assert_eq!(app.step(line("ERROR: Can't find a picoprobe device!")), quietly(Action::Receive));
    assert_eq!(
        app.step(line("Error: bind() failed for port 3333: Address already in use")),
        quietly(Action::Receive)
    );
    assert_eq!(app.stage, Stage::Draining);
    assert!(!app.line_handler.address_already_in_use);
    assert_eq!(app.line_handler.address_already_in_use_port, "unknown");
    assert_eq!(app.step(Event::Closed), quietly(Action::Pause { millis: 1000 }));
}

#[test]
fn a_daemon_that_cannot_be_terminated_ends_the_supervisor() {
    let mut app = running();
    app.step(line("Error: rejected 'gdb' connection, no more connections allowed"));
    assert_eq!(app.step(Event::KillFailed), loudly(Notice::kill_failed(), Action::Exit));
    assert_eq!(app.stage, Stage::Terminated);
}

#[test]
fn a_missing_probe_ends_the_supervisor() {
    let mut app = running();
    let directive = app.step(line("ERROR: Can't find a picoprobe device!"));
    assert_eq!(directive, loudly(Notice::probe_missing(), Action::Exit));
    assert_eq!(app.stage, Stage::Terminated);
    assert_eq!(app.to_phase(), Phase::Terminated);
    assert!(!app.restart_openocd);
}

#[test]
fn a_missing_configuration_ends_the_supervisor() {
    let mut app = running();
    let directive = app.step(line("Error: Can't find openocd.cfg"));
    assert_eq!(directive, loudly(Notice::config_missing(), Action::Exit));
    assert_eq!(app.stage, Stage::Terminated);
}

#[test]
fn a_supervisor_that_has_given_up_stays_so() {
    let mut app = running();
    app.step(line("ERROR: Can't find a picoprobe device!"));
    for event in [
        Event::Spawned,
        Event::Rested,
        Event::Closed,
        Event::Killed,
        Event::Reaped,
        line("Info : all is well"),
    ] {
        assert!(!app.expects(&event));
        assert_eq!(app.step(event), quietly(Action::Exit));
        assert_eq!(app.stage, Stage::Terminated);
    }
}

#[test]
fn a_daemon_that_ends_by_itself_is_started_again() {
    let mut app = running();
    assert_eq!(app.step(Event::Closed), quietly(Action::Pause { millis: 1000 }));
    assert_eq!(app.stage, Stage::Cooling);
    assert_eq!(app.step(Event::Rested), quietly(launch(&["-d3"])));
    assert_eq!(app.stage, Stage::Launching);
}

#[test]
fn an_event_out_of_turn_changes_nothing() {
    let mut app = running();
    for event in [Event::Spawned, Event::Rested, Event::Killed, Event::Reaped, Event::SpawnFailed]
    {
        assert!(!app.expects(&event));
        assert_eq!(app.step(event), quietly(Action::Receive));
        assert_eq!(app.stage, Stage::Watching);
    }
    app.step(line("Error: bind() failed for port 3333: Address already in use"));
    assert!(!app.expects(&line("x")));
    assert_eq!(
        app.step(line("ERROR: Can't find a picoprobe device!")),
        quietly(Action::Reap { name: "openocd".to_string() })
    );
    assert_eq!(app.stage, Stage::Reaping);
    app.step(Event::Reaped);
    app.step(Event::Closed);
    assert!(!app.expects(&Event::Closed));
    assert_eq!(app.step(Event::Closed), quietly(Action::Pause { millis: 1000 }));
    assert_eq!(app.stage, Stage::Cooling);
}

#[test]
fn each_stage_expects_the_outcomes_of_its_action() {
    let mut app = App::new(strings(&["x"])).unwrap();
    app.start();
    assert_eq!(app.awaited(), launch(&[]));
    assert!(app.expects(&Event::Spawned));
    assert!(app.expects(&Event::SpawnFailed));
    assert!(app.expects(&Event::StdoutUnavailable));
    assert!(app.expects(&Event::StderrUnavailable));
    assert!(!app.expects(&line("x")));
    app.step(Event::Spawned);
    assert_eq!(app.awaited(), Action::Receive);
    assert!(app.expects(&line("x")));
    assert!(app.expects(&Event::Closed));
    app.step(line("Error: rejected 'gdb' connection, no more connections allowed"));
    assert_eq!(app.awaited(), Action::KillChild);
    assert!(app.expects(&Event::Killed));
    assert!(app.expects(&Event::KillFailed));
    assert!(!app.expects(&Event::Closed));
    app.step(Event::Killed);
    assert_eq!(app.awaited(), Action::Receive);
    app.step(Event::Closed);
    assert_eq!(app.awaited(), Action::Pause { millis: 1000 });
    assert!(app.expects(&Event::Rested));
    assert!(!app.expects(&Event::Spawned));
}

#[test]
fn a_line_is_classified_and_answered() {
    let mut app = running();
    let (verdict, directive) = app.handle_line("Info : all is well".to_string());
    assert_eq!(verdict, Ok(LineSuccess::new()));
    assert_eq!(directive, quietly(Action::Receive));
    assert!(!app.restart_openocd);

    let (verdict, directive) =
        app.handle_line("Error: bind() failed for port 4444: Address already in use".to_string());
    assert_eq!(verdict, Err(LineError::AddressAlreadyInUse));
    assert_eq!(
        directive,
        loudly(Notice::port_conflict("4444"), Action::Reap { name: "openocd".to_string() })
    );
    assert!(!app.restart_openocd);

    let (verdict, directive) =
        app.handle_line("Error: rejected 'gdb' connection, no more connections allowed".to_string());
    assert_eq!(verdict, Err(LineError::NoMoreConnections));
    assert_eq!(directive, loudly(Notice::connection_limit(), Action::Receive));
    assert!(app.restart_openocd);
    assert_eq!(app.stage, Stage::Watching);
}

#[test]
fn a_restart_that_is_asked_for_waits_for_the_reaping() {
    let mut app = running();
    app.restart_openocd = true;
    let directive =
        app.step(line("Error: bind() failed for port 3333: Address already in use"));
    assert_eq!(
        directive,
        loudly(Notice::port_conflict("3333"), Action::Reap { name: "openocd".to_string() })
    );
    assert!(app.restart_openocd);
    assert_eq!(app.step(Event::Reaped), quietly(Action::KillChild));
    assert_eq!(app.stage, Stage::Killing);
    assert!(!app.restart_openocd);
}

#[test]
fn lines_are_answered_in_the_order_they_come() {
    let mut app = running();
    let lines = [
        "Info : one",
        "Error: bind() failed for port 1111: Address already in use",
        "Info : two",
        "Error: bind() failed for port 2222: Address already in use",
    ];
    let mut ports = Vec::new();
    for text in lines {
        let directive = app.step(line(text));
        if matches!(directive.action, Action::Reap { .. }) {
            ports.push(app.line_handler.address_already_in_use_port.clone());
            app.step(Event::Reaped);
        }
    }
    assert_eq!(ports, strings(&["1111", "2222"]));
    assert_eq!(app.line_handler.address_already_in_use_port, "2222");
}

#[test]
fn a_refused_connection_restarts_whichever_phrase_comes_first() {
    let mut app = running();
    let directive = app.step(line("no more connections allowed: rejected 'gdb' connection"));
    assert_eq!(directive, loudly(Notice::connection_limit(), Action::KillChild));
    assert_eq!(app.stage, Stage::Killing);
    assert_eq!(app.to_phase(), Phase::Restarting);
}

#[test]
fn the_command_line_is_not_read_again_while_a_daemon_runs() {
    let mut app = running();
    assert_eq!(app.start(), quietly(Action::Receive));
    assert_eq!(app.stage, Stage::Watching);
    assert_eq!(app.subprocess_args, strings(&["-d3"]));

    app.step(line("Error: bind() failed for port 3333: Address already in use"));
    assert_eq!(app.start(), quietly(Action::Reap { name: "openocd".to_string() }));
    assert_eq!(app.stage, Stage::Reaping);
    app.step(Event::Reaped);

    app.step(line("Error: rejected 'gdb' connection, no more connections allowed"));
    assert_eq!(app.start(), quietly(Action::KillChild));
    assert_eq!(app.stage, Stage::Killing);
    app.step(Event::Killed);
    assert_eq!(app.start(), quietly(Action::Receive));
    assert_eq!(app.stage, Stage::Draining);
    app.step(Event::Closed);
    assert_eq!(app.start(), quietly(Action::Pause { millis: 1000 }));
    assert_eq!(app.stage, Stage::Cooling);

    assert_eq!(app.step(Event::Rested), quietly(launch(&["-d3"])));
    assert_eq!(app.start(), quietly(launch(&["-d3"])));
    assert_eq!(app.stage, Stage::Launching);
}

#[test]
fn the_command_line_is_not_read_again_after_giving_up() {
    let mut app = running();
    app.step(line("ERROR: Can't find a picoprobe device!"));
    assert_eq!(app.start(), quietly(Action::Exit));
    assert_eq!(app.stage, Stage::Terminated);
}
