use honkers_launcher::cli::{
    filter_noisy_crates, keep_stdout_event, parse_args, select_log_level, CliCommand, CliOptions,
    LogLevel,
};

fn args(list: &[&str]) -> Vec<String> {
    list.iter().map(|s| s.to_string()).collect()
}

fn run(list: &[&str]) -> CliOptions {
    match parse_args(&args(list)) {
        CliCommand::Run(o) => o,
        CliCommand::ShowHelp => panic!("unexpected help"),
    }
}

#[test]
fn no_arguments_give_defaults() {
    assert_eq!(run(&[]), CliOptions::default());
    let d = CliOptions::default();
    assert_eq!(d.force_debug, 0);
    assert!(!d.run_game && !d.just_run_game && !d.no_verbose_tracing);
    assert_eq!(d.session, None);
}

#[test]
fn every_flag_is_read() {
    let o = run(&["--debug", "--run-game", "--just-run-game", "--no-verbose-tracing", "--session", "work"]);
    assert_eq!(o.force_debug, 1);
    assert!(o.run_game);
    assert!(o.just_run_game);
    assert!(o.no_verbose_tracing);
    assert_eq!(o.session, Some("work".to_string()));
}

#[test]
fn debug_is_counted() {
    assert_eq!(run(&["--debug", "--debug", "--debug"]).force_debug, 3);
}

#[test]
fn help_in_either_form() {
    assert_eq!(parse_args(&args(&["-h"])), CliCommand::ShowHelp);
    assert_eq!(parse_args(&args(&["--debug", "--help", "--run-game"])), CliCommand::ShowHelp);
}

#[test]
fn session_takes_next_argument_even_help() {
    let o = run(&["--session", "--help"]);
    assert_eq!(o.session, Some("--help".to_string()));
    let o = run(&["--session", "--debug"]);
    assert_eq!(o.session, Some("--debug".to_string()));
    assert_eq!(o.force_debug, 0);
}

#[test]
fn trailing_session_is_ignored() {
    let o = run(&["--run-game", "--session"]);
    assert_eq!(o.session, None);
    assert!(o.run_game);
}

#[test]
fn later_session_wins() {
    assert_eq!(run(&["--session", "a", "--session", "b"]).session, Some("b".to_string()));
}

#[test]
fn unknown_argument_in_front_is_ignored() {
    assert_eq!(run(&["--verbose", "--debug", "--session", "s"]), run(&["--debug", "--session", "s"]));
    assert_eq!(run(&["launch", "--run-game"]), run(&["--run-game"]));
}

#[test]
fn help_stops_reading() {
    assert_eq!(parse_args(&args(&["--help", "--session"])), parse_args(&args(&["--help"])));
}

#[test]
fn log_levels() {
    assert_eq!(select_log_level(0, true), LogLevel::Debug);
    assert_eq!(select_log_level(0, false), LogLevel::Warn);
    assert_eq!(select_log_level(1, false), LogLevel::Debug);
    assert_eq!(select_log_level(1, true), LogLevel::Debug);
    assert_eq!(select_log_level(2, false), LogLevel::Trace);
    assert_eq!(select_log_level(255, true), LogLevel::Trace);
}

#[test]
fn noisy_crates_are_filtered() {
    assert!(filter_noisy_crates("honkers_launcher::ui"));
    assert!(filter_noisy_crates(""));
    assert!(!filter_noisy_crates("rustls::client"));
    assert!(!filter_noisy_crates("reqwest::connect"));
    assert!(!filter_noisy_crates("h2::proto"));
    assert!(!filter_noisy_crates("hyper_util::client"));
    assert!(!filter_noisy_crates("wgpu_core::device"));
    assert!(!filter_noisy_crates("my_h2_thing"));
    assert!(filter_noisy_crates("h_2"));
}

#[test]
fn stdout_events() {
    assert!(keep_stdout_event("anime_game_core", false));
    assert!(!keep_stdout_event("anime_game_core", true));
    assert!(!keep_stdout_event("hyper", false));
}

#[test]
fn options_clone_is_equal() {
    let o = run(&["--debug", "--session", "x"]);
    assert_eq!(o.clone(), o);
}
