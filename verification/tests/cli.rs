use cyrok::cli::{LogLevel, Options};
use cyrok::client::cli::Options as ClientOptions;
use cyrok::client::config::{LogConfiguration, LogFile};
use cyrok::text::with_default;

#[test]
fn log_level_words() {
    assert_eq!(LogLevel::from("DEBUG"), LogLevel::DEBUG);
    assert_eq!(LogLevel::from("NOTICE"), LogLevel::NOTICE);
    assert_eq!(LogLevel::from("ERROR"), LogLevel::ERROR);
    assert_eq!(LogLevel::from("debug"), LogLevel::NOTICE);
    assert_eq!(LogLevel::from(""), LogLevel::NOTICE);
    let l: LogLevel = "ERROR".into();
    assert_eq!(l, LogLevel::ERROR);
}

#[test]
fn log_levels_ordered() {
    assert!(LogLevel::DEBUG < LogLevel::NOTICE);
    assert!(LogLevel::NOTICE < LogLevel::ERROR);
}

#[test]
fn options_defaults() {
    let o = Options::from_args(None, None, None, None, false);
    assert_eq!(o.config, ".cyrok");
    assert_eq!(o.logto, "none");
    assert_eq!(o.loglevel, LogLevel::NOTICE);
    assert_eq!(o.command(), &None);
}

#[test]
fn options_given() {
    let o = Options::from_args(Some("my.cfg"), Some("/tmp/log"), Some("DEBUG"), Some("start_all"), false);
    assert_eq!(o.config, "my.cfg");
    assert_eq!(o.logto, "/tmp/log");
    assert_eq!(o.loglevel, LogLevel::DEBUG);
    assert_eq!(o.command(), &Some("start_all".to_string()));
    let list = Options::from_args(None, None, None, Some("list"), false);
    assert_eq!(list.command(), &Some("list".to_string()));
    let other = Options::from_args(None, None, None, Some("stop"), false);
    assert_eq!(other.command(), &None);
    let start = Options::from_args(None, None, None, Some("start"), true);
    assert_eq!(start.command(), &Some("start".to_string()));
}

#[test]
fn client_options_defaults() {
    let o = ClientOptions::from_args(None, None, None, None, None);
    assert_eq!(o.configpath, ".cyrok");
    assert_eq!(o.logpath, "none");
    assert_eq!(o.loglevel, "NOTICE");
    assert_eq!(o.command, (None, None));
}

#[test]
fn client_options() {
    let names = vec!["web".to_string(), "ssh".to_string()];
    let o = ClientOptions::from_args(None, None, Some("ERROR"), Some("start"), Some(names.clone()));
    assert_eq!(o.configpath, ".cyrok");
    assert_eq!(o.logpath, "none");
    assert_eq!(o.loglevel, "ERROR");
    assert_eq!(o.command, (Some("start".to_string()), Some(names)));
    let l = ClientOptions::from_args(Some("c.json"), Some("out.log"), None, Some("list"), None);
    assert_eq!(l.configpath, "c.json");
    assert_eq!(l.logpath, "out.log");
    assert_eq!(l.loglevel, "NOTICE");
    assert_eq!(l.command, (Some("list".to_string()), None));
    let n = ClientOptions::from_args(None, None, None, None, Some(vec![]));
    assert_eq!(n.command, (None, None));
}

#[test]
fn logger_plans() {
    let to_file = LogConfiguration { loglevel: "debug".to_string(), to_file: true, base_name: "xxlog".to_string(), dir: "./log".to_string() };
    let p = to_file.logger_plan();
    assert_eq!(p.spec, "info");
    assert_eq!(p.file, Some(LogFile { base_name: "xxlog".to_string(), directory: "./log".to_string() }));
    let to_err = LogConfiguration { loglevel: "debug".to_string(), to_file: false, base_name: "b".to_string(), dir: "d".to_string() };
    let q = to_err.logger_plan();
    assert_eq!(q.spec, "debug");
    assert_eq!(q.file, None);
}

#[test]
fn defaults_apply_only_when_missing() {
    assert_eq!(with_default(None, "0.0.0.0:7777"), "0.0.0.0:7777");
    assert_eq!(with_default(Some(""), "0.0.0.0:7777"), "");
}
