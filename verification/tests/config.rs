use std::sync::mpsc::Receiver;

use wg_bridge::configuration::conf_path;
use wg_bridge::configuration::substitute_home;
use wg_bridge::configuration::AppConf;
use wg_bridge::configuration::ConfError;
use wg_bridge::configuration::ConfRegistry;
use wg_bridge::logger::Logger;
use wg_bridge::logger::LoggerRegistry;

fn pipeline() -> (Logger, Receiver<String>, LoggerRegistry) {
    let mut reg = LoggerRegistry::new();
    let rx = Logger::init(&mut reg).unwrap();
    let log = Logger::get(&reg).unwrap();
    (log, rx, reg)
}

fn drain(log: Logger, reg: LoggerRegistry, rx: Receiver<String>) -> Vec<String> {
    drop(log);
    drop(reg);
    rx.iter().collect()
}

#[test]
fn load_verbatim_without_placeholder() {
    let (mut log, _rx, _reg) = pipeline();
    let doc = "version = \"1.0\"\nlog_path = \"/var/log/x.log\"\nuser_conf = \"/etc/u.toml\"\n";
    let c = AppConf::load_app_conf(
        &mut log,
        Ok(doc.to_string()),
        Some("/home/alice".to_string()),
    )
    .unwrap();
    assert_eq!(c.version, "1.0");
    assert_eq!(c.log_path, "/var/log/x.log");
    assert_eq!(c.user_conf, "/etc/u.toml");
}

#[test]
fn scenario_home_substitution() {
    let (mut log, _rx, _reg) = pipeline();
    let doc = "version = \"1.0\"\nlog_path = \"/var/log/x.log\"\nuser_conf = \"$HOME/cfg.toml\"\n";
    let c = AppConf::load_app_conf(&mut log, Ok(doc.to_string()), Some("/home/bob".to_string()))
        .unwrap();
    assert_eq!(c.version, "1.0");
    assert_eq!(c.log_path, "/var/log/x.log");
    assert_eq!(c.user_conf, "/home/bob/cfg.toml");
}

#[test]
fn substitute_home_cases() {
    assert_eq!(substitute_home("/plain", Some("/h")).unwrap(), "/plain");
    assert_eq!(
        substitute_home("$HOME/x", Some("/home/alice")).unwrap(),
        "/home/alice/x"
    );
    assert!(matches!(
        substitute_home("$HOME/x", None),
        Err(ConfError::MissingHomeVar)
    ));
}

#[test]
fn load_missing_home_var_fails() {
    let (mut log, _rx, _reg) = pipeline();
    let doc = "version = \"1.0\"\nlog_path = \"/l\"\nuser_conf = \"$HOME/u\"\n";
    let r = AppConf::load_app_conf(&mut log, Ok(doc.to_string()), None);
    assert!(matches!(r, Err(ConfError::MissingHomeVar)));
}

#[test]
fn load_parse_error() {
    let (mut log, rx, reg) = pipeline();
    let r = AppConf::load_app_conf(&mut log, Ok("not toml [[[".to_string()), None);
    match r {
        Err(ConfError::Parse(m)) => assert!(!m.is_empty()),
        _ => panic!("expected a parse error"),
    }
    let lines = drain(log, reg, rx);
    assert_eq!(lines.len(), 1);
    assert!(lines[0].contains("Failed to parse the config file /etc/wg-bridge/app.toml: "));
    assert!(lines[0].contains(" - ERROR"));
}

#[test]
fn load_missing_field_is_parse_error() {
    let (mut log, _rx, _reg) = pipeline();
    let doc = "version = \"1.0\"\nlog_path = \"/l\"\n";
    match AppConf::load_app_conf(&mut log, Ok(doc.to_string()), None) {
        Err(ConfError::Parse(m)) => assert_eq!(m, "missing field `user_conf`"),
        _ => panic!("expected a parse error"),
    }
}

#[test]
fn load_wrong_type_field_is_parse_error() {
    let (mut log, _rx, _reg) = pipeline();
    let doc = "version = 10\nlog_path = \"/l\"\nuser_conf = \"/u\"\n";
    match AppConf::load_app_conf(&mut log, Ok(doc.to_string()), None) {
        Err(ConfError::Parse(m)) => assert_eq!(m, "missing field `version`"),
        _ => panic!("expected a parse error"),
    }
}

#[test]
fn missing_file_logs_path_and_fails() {
    let (mut log, rx, reg) = pipeline();
    let mut conf_reg = ConfRegistry::new();
    let r = AppConf::init(
        &mut conf_reg,
        &mut log,
        Err("No such file or directory (os error 2)".to_string()),
        None,
    );
    assert!(matches!(r, Err(ConfError::Read(_))));
    // no further initialization happened
    assert!(matches!(AppConf::get(&conf_reg), Err(ConfError::NotInitialized)));
    let lines = drain(log, reg, rx);
    assert_eq!(lines.len(), 2);
    assert!(lines[0].contains("Failed to read config file /etc/wg-bridge/app.toml: "));
    assert!(lines[0].contains("No such file or directory"));
    assert!(lines[0].contains(" - ERROR"));
    assert!(lines[1].contains("Failed to load configuration: No such file or directory"));
}

#[test]
fn init_success_installs_and_logs() {
    let (mut log, rx, reg) = pipeline();
    let mut conf_reg = ConfRegistry::new();
    let doc = "version = \"1.0\"\nlog_path = \"/var/log/x.log\"\nuser_conf = \"$HOME/cfg.toml\"\n";
    let r = AppConf::init(
        &mut conf_reg,
        &mut log,
        Ok(doc.to_string()),
        Some("/home/bob".to_string()),
    );
    assert!(r.is_ok());
    let c = AppConf::get(&conf_reg).unwrap();
    assert_eq!(c.version, "1.0");
    assert_eq!(c.log_path, "/var/log/x.log");
    assert_eq!(c.user_conf, "/home/bob/cfg.toml");
    let lines = drain(log, reg, rx);
    assert_eq!(lines.len(), 1);
    assert!(lines[0].contains(" - DEBUG"));
    assert!(lines[0].ends_with("  Configuration loaded successfully"));
}

#[test]
fn conf_double_init_keeps_first() {
    let (mut log, _rx, _reg) = pipeline();
    let mut conf_reg = ConfRegistry::new();
    let doc1 = "version = \"1.0\"\nlog_path = \"/a\"\nuser_conf = \"/u\"\n";
    let doc2 = "version = \"2.0\"\nlog_path = \"/b\"\nuser_conf = \"/v\"\n";
    assert!(AppConf::init(&mut conf_reg, &mut log, Ok(doc1.to_string()), None).is_ok());
    let r = AppConf::init(&mut conf_reg, &mut log, Ok(doc2.to_string()), None);
    assert!(matches!(r, Err(ConfError::AlreadyInitialized)));
    assert_eq!(AppConf::get(&conf_reg).unwrap().version, "1.0");
}

#[test]
fn conf_get_before_init_fails() {
    let conf_reg = ConfRegistry::new();
    assert!(matches!(AppConf::get(&conf_reg), Err(ConfError::NotInitialized)));
}

#[test]
fn conf_path_is_fixed() {
    assert_eq!(conf_path(), "/etc/wg-bridge/app.toml");
}

#[test]
fn placeholder_twice_is_substituted_twice() {
    let (mut log, _rx, _reg) = pipeline();
    let doc = "version = \"1.0\"\nlog_path = \"/l\"\nuser_conf = \"$HOME/a/$HOME/b\"\n";
    let c = AppConf::load_app_conf(&mut log, Ok(doc.to_string()), Some("/h".to_string()))
        .unwrap();
    assert_eq!(c.user_conf, "/h/a//h/b");
}
