use clap::{Arg, ArgAction, ArgMatches, Command};
use nfc_bridge::config::{
    default_bind_addr, default_cooldown, default_poll_interval, default_port, AppArgs, Config,
    ConfigError, TomlValue, CONFIG_FILE_NAME,
};

fn no_args() -> AppArgs {
    AppArgs {
        console: false,
        config: None,
        port: None,
        poll_interval_ms: None,
        cooldown_ms: None,
        bind_addr: None,
    }
}

fn option(name: &'static str) -> Arg {
    Arg::new(name).long(name)
}

fn value(matches: &ArgMatches, name: &str) -> Option<String> {
    matches.get_one::<String>(name).cloned()
}

fn parse_args(args: &[&str]) -> AppArgs {
    let matches = Command::new("nfc-bridge")
        .arg(option("console").action(ArgAction::SetTrue))
        .arg(option("config"))
        .arg(option("port"))
        .arg(option("poll-interval-ms"))
        .arg(option("cooldown-ms"))
        .arg(option("bind-addr"))
        .get_matches_from(args.iter().map(|arg| arg.to_string()));
    AppArgs {
        console: matches.get_flag("console"),
        config: value(&matches, "config"),
        port: value(&matches, "port").map(|text| text.parse().unwrap()),
        poll_interval_ms: value(&matches, "poll-interval-ms").map(|text| text.parse().unwrap()),
        cooldown_ms: value(&matches, "cooldown-ms").map(|text| text.parse().unwrap()),
        bind_addr: value(&matches, "bind-addr"),
    }
}

#[test]
fn default_config() {
    let config = Config::load_default_locations(None).unwrap();
    assert_eq!(config.port, 9876);
    assert_eq!(config.poll_interval_ms, 200);
    assert_eq!(config.cooldown_ms, 3000);
    assert_eq!(config.bind_addr, "127.0.0.1");
    assert_eq!(config.addr(), "127.0.0.1:9876");
}

#[test]
fn config_from_toml() {
    let toml_str = r#"
            port = 8080
            bind_addr = "0.0.0.0"
            poll_interval_ms = 100
            cooldown_ms = 5000
        "#;
    let config = Config::from_toml(toml_str).unwrap();
    assert_eq!(config.port, 8080);
    assert_eq!(config.bind_addr, "0.0.0.0");
    assert_eq!(config.poll_interval_ms, 100);
    assert_eq!(config.cooldown_ms, 5000);
}

#[test]
fn config_defaults_from_empty_toml() {
    let config = Config::from_toml("").unwrap();
    assert_eq!(config.port, 9876);
    assert_eq!(config.bind_addr, "127.0.0.1");
    assert_eq!(config.poll_interval_ms, 200);
    assert_eq!(config.cooldown_ms, 3000);
}

#[test]
fn cli_overrides_file_config() {
    let args = parse_args(&[
        "test",
        "--console",
        "--port",
        "8080",
        "--bind-addr",
        "0.0.0.0",
    ]);
    assert!(args.console);
    assert_eq!(args.port, Some(8080));
    assert_eq!(args.bind_addr, Some("0.0.0.0".to_string()));
    assert_eq!(args.poll_interval_ms, None);

    let file = "port = 1\nbind_addr = \"10.0.0.1\"\npoll_interval_ms = 50\nlog_dir = \"d\"";
    let config = Config::from_args_and_file(&args, Some(Ok(file.to_string()))).unwrap();
    assert_eq!(config.port, 8080);
    assert_eq!(config.bind_addr, "0.0.0.0");
    assert_eq!(config.poll_interval_ms, 50);
    assert_eq!(config.cooldown_ms, 3000);
    assert_eq!(config.log_dir, "d");
    assert_eq!(config.addr(), "0.0.0.0:8080");
}

#[test]
fn command_line_options_of_the_manual() {
    let args = parse_args(&["test", "--console", "--port", "8765", "--poll-interval-ms", "100"]);
    let config = Config::from_args_and_file(&args, None).unwrap();
    assert_eq!(config.port, 8765);
    assert_eq!(config.poll_interval_ms, 100);
    assert_eq!(config.cooldown_ms, 3000);
    let args = parse_args(&["test", "--cooldown-ms", "7", "--config", "path/to/config.toml"]);
    assert_eq!(args.config, Some("path/to/config.toml".to_string()));
    let config = Config::from_args_and_file(&args, Some(Ok("port = 0".to_string()))).unwrap();
    assert_eq!(config.port, 0);
    assert_eq!(config.cooldown_ms, 7);
}

#[test]
fn documented_config_file() {
    let config = Config::from_toml(
        "port = 9876\nbind_addr = \"127.0.0.1\"\npoll_interval_ms = 200\ncooldown_ms = 3000\nlog_dir = \"\"\n",
    )
    .unwrap();
    assert_eq!(config.addr(), "127.0.0.1:9876");
    assert_eq!(config.poll_interval_ms, 200);
    assert_eq!(config.cooldown_ms, 3000);
    assert_eq!(config.log_dir, "");
    assert_eq!(CONFIG_FILE_NAME, "nfc-bridge.toml");
}

#[test]
fn default_functions() {
    assert_eq!(default_port(), 9876);
    assert_eq!(default_poll_interval(), 200);
    assert_eq!(default_cooldown(), 3000);
    assert_eq!(default_bind_addr(), "127.0.0.1");
}

fn rejected_setting(text: &str) -> String {
    match Config::from_toml(text) {
        Err(ConfigError::Setting(key)) => key,
        other => panic!("{:?}", other),
    }
}

#[test]
fn unsuitable_values_are_rejected() {
    assert_eq!(rejected_setting("port = 65536"), "port");
    assert_eq!(rejected_setting("port = -1"), "port");
    assert_eq!(rejected_setting("port = \"8080\""), "port");
    assert_eq!(rejected_setting("port = 8080.0"), "port");
    assert_eq!(rejected_setting("poll_interval_ms = -1"), "poll_interval_ms");
    assert_eq!(rejected_setting("cooldown_ms = true"), "cooldown_ms");
    assert_eq!(rejected_setting("bind_addr = 1"), "bind_addr");
    assert_eq!(rejected_setting("bind_addr = 1979-05-27"), "bind_addr");
    assert_eq!(rejected_setting("log_dir = []"), "log_dir");
    assert_eq!(rejected_setting("[port]\nx = 1"), "port");
}

#[test]
fn first_unsuitable_value_in_the_document_is_named() {
    assert_eq!(rejected_setting("cooldown_ms = -1\nport = 70000"), "cooldown_ms");
    assert_eq!(rejected_setting("log_dir = 1\nbind_addr = 2\nport = 3.5"), "log_dir");
    assert_eq!(rejected_setting("port = 1\nx = 1\nbind_addr = nan\nlog_dir = 2"), "bind_addr");
}

#[test]
fn largest_values_are_accepted() {
    let config = Config::from_toml(
        "port = 65535\npoll_interval_ms = 9223372036854775807\ncooldown_ms = 0",
    )
    .unwrap();
    assert_eq!(config.port, 65535);
    assert_eq!(config.poll_interval_ms, 9223372036854775807);
    assert_eq!(config.cooldown_ms, 0);
    assert_eq!(config.addr(), "127.0.0.1:65535");
}

#[test]
fn other_entries_are_ignored() {
    let config =
        Config::from_toml("a = 1.5\nport = 1\n[b]\nport = \"x\"\n[[c]]\nd = 1\n").unwrap();
    assert_eq!(config.port, 1);
    assert_eq!(config.cooldown_ms, 3000);
    // A table that looks like a date to the parser, but holds none
    let config = Config::from_toml(
        "when = { \"$__toml_private_datetime\" = \"soon\" }\nf = inf\n[a.b]\nc = 1979-05-27\n",
    )
    .unwrap();
    assert_eq!(config.port, 9876);
}

#[test]
fn config_errors() {
    match Config::from_toml("port = ") {
        Err(ConfigError::Syntax(text)) => assert!(text.contains("TOML parse error")),
        other => panic!("{:?}", other),
    }
    assert!(matches!(Config::from_toml("port = 1\nport = 2"), Err(ConfigError::Syntax(_))));
    let unread = Config::load_default_locations(Some(Err("denied".to_string())));
    assert!(matches!(unread, Err(ConfigError::Read(text)) if text == "denied"));
    let args = no_args();
    let unread = Config::from_args_and_file(&args, Some(Err("not found".to_string())));
    assert!(matches!(&unread, Err(ConfigError::Read(text)) if text == "not found"));
    let bad = Config::from_args_and_file(&args, Some(Ok("port = 70000".to_string())));
    assert!(matches!(&bad, Err(ConfigError::Setting(key)) if key == "port"));
}

#[test]
fn config_from_parsed_document() {
    let document = vec![
        ("port".to_string(), TomlValue::Number(Some(80))),
        ("log_dir".to_string(), TomlValue::Text("logs".to_string())),
        ("extra".to_string(), TomlValue::Other),
    ];
    let config = Config::from_document(Ok(document)).unwrap();
    assert_eq!(config.port, 80);
    assert_eq!(config.log_dir, "logs");
    assert_eq!(config.bind_addr, "127.0.0.1");
    let failed = Config::from_document(Err("bad".to_string()));
    assert!(matches!(failed, Err(ConfigError::Syntax(text)) if text == "bad"));
}

#[test]
fn overrides_apply_once() {
    let mut args = no_args();
    args.port = Some(1);
    args.bind_addr = Some("h".to_string());
    let once = Config::load_default_locations(None).unwrap().with_overrides(&args);
    let twice = once.clone().with_overrides(&args);
    assert_eq!(once.addr(), "h:1");
    assert_eq!(twice.addr(), "h:1");
    assert_eq!(twice.cooldown_ms, 3000);
}
