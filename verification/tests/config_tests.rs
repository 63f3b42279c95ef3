use transfer_rs::config::{
    answer_is_yes, default_config_dir, Config, ExitReason, FetchAction, FetchConfig, FetchError,
    FetchEvent,
};

fn io_error(text: &str) -> std::io::Error {
    std::io::Error::new(std::io::ErrorKind::Other, text.to_string())
}

const EXE: &str = "/home/u/proj/target/debug/transfer-rs";

fn exe() -> String {
    EXE.to_string()
}

#[test]
fn defaults_are_documented_values() {
    let c = Config::defaults(&exe());
    assert_eq!(c.get_ip(), "0.0.0.0:8080");
    assert_eq!(c.get_worker_count(), 1);
    assert_eq!(c.get_stroage_dir(), "/home/u/proj/storage");
}

#[test]
fn new_without_settings_is_default() {
    let c = Config::new(None, None, None, Some(&exe())).unwrap();
    assert_eq!(c.get_ip(), "0.0.0.0:8080");
    assert_eq!(c.get_worker_count(), 1);
    assert_eq!(c.get_stroage_dir(), "/home/u/proj/storage");
}

#[test]
fn new_keeps_given_settings() {
    let c = Config::new(Some("127.0.0.1:9000".to_string()), Some(4), Some("/srv".to_string()), Some(&exe())).unwrap();
    assert_eq!(c.get_ip(), "127.0.0.1:9000");
    assert_eq!(c.get_worker_count(), 4);
    assert_eq!(c.get_stroage_dir(), "/srv");
    let partial = Config::new(None, Some(7), None, Some(&exe())).unwrap();
    assert_eq!(partial.get_ip(), "0.0.0.0:8080");
    assert_eq!(partial.get_worker_count(), 7);
    assert_eq!(partial.get_stroage_dir(), "/home/u/proj/storage");
}

#[test]
fn setters_change_one_setting() {
    let mut c = Config::defaults(&exe());
    c.set_ip("10.0.0.1:80".to_string());
    assert_eq!(c.get_ip(), "10.0.0.1:80");
    assert_eq!(c.get_worker_count(), 1);
    c.set_worker_count(3);
    assert_eq!(c.get_worker_count(), 3);
    c.set_storage_dir("/data".to_string());
    assert_eq!(c.get_stroage_dir(), "/data");
    assert_eq!(c.get_ip(), "10.0.0.1:80");
}

#[test]
fn clone_keeps_settings() {
    let c = Config::new(Some("a:1".to_string()), Some(2), Some("/x".to_string()), Some(&exe())).unwrap();
    let d = c.clone();
    assert_eq!(d.get_ip(), "a:1");
    assert_eq!(d.get_worker_count(), 2);
    assert_eq!(d.get_stroage_dir(), "/x");
}

#[test]
fn default_config_dir_is_config_toml_in_project_dir() {
    let exe = "/home/u/proj/target/debug/transfer-rs".to_string();
    assert_eq!(default_config_dir(&exe), "/home/u/proj/config.toml");
}

#[test]
fn answers() {
    assert!(answer_is_yes(&"y\n".to_string()));
    assert!(answer_is_yes(&"Yes\n".to_string()));
    assert!(!answer_is_yes(&"n\n".to_string()));
    assert!(!answer_is_yes(&"\n".to_string()));
}

#[test]
fn exit_statuses() {
    assert_eq!(ExitReason::Declined.status(), 1);
    assert_eq!(ExitReason::StdinFailed(io_error("x")).status(), 3);
    assert_eq!(ExitReason::CreateFailed(io_error("x")).status(), 4);
    assert_eq!(ExitReason::ReadFailed(io_error("x")).status(), 2);
}

#[test]
fn run_with_given_path_and_empty_file() {
    let mut m = FetchConfig::new(Some("/etc/t.toml".to_string()), Some("1.2.3.4:5".to_string()), None, None);
    match m.step(FetchEvent::Begin) {
        FetchAction::Open(p) => assert_eq!(p, "/etc/t.toml"),
        _ => panic!("expected open"),
    }
    assert!(matches!(m.step(FetchEvent::Opened(Ok(()))), FetchAction::Read));
    assert!(matches!(m.step(FetchEvent::ReadDone(Ok(String::new()))), FetchAction::AnnounceEmptyAndLocate));
    match m.step(FetchEvent::Located(Ok(exe()))) {
        FetchAction::Serialize { config, announce_empty: false } => {
            assert_eq!(config.get_ip(), "1.2.3.4:5");
            assert_eq!(config.get_worker_count(), 1);
            assert_eq!(config.get_stroage_dir(), "/home/u/proj/storage");
        }
        _ => panic!("expected serialize"),
    }
    match m.step(FetchEvent::Serialized(Ok("text".to_string()))) {
        FetchAction::Write { path, text } => {
            assert_eq!(path, "/etc/t.toml");
            assert_eq!(text, "text");
        }
        _ => panic!("expected write"),
    }
    match m.step(FetchEvent::Written(Ok(()))) {
        FetchAction::Finish(Ok(c)) => assert_eq!(c.get_ip(), "1.2.3.4:5"),
        _ => panic!("expected a configuration"),
    }
}

#[test]
fn given_path_with_all_settings_skips_every_question() {
    let mut m = FetchConfig::new(
        Some("c.toml".to_string()),
        Some("1.2.3.4:80".to_string()),
        Some(4),
        Some("/data".to_string()),
    );
    assert!(matches!(m.step(FetchEvent::Begin), FetchAction::Open(_)));
    m.step(FetchEvent::Opened(Ok(())));
    match m.step(FetchEvent::ReadDone(Ok(String::new()))) {
        FetchAction::Serialize { config, announce_empty } => {
            assert!(announce_empty);
            assert_eq!(config.get_ip(), "1.2.3.4:80");
            assert_eq!(config.get_worker_count(), 4);
            assert_eq!(config.get_stroage_dir(), "/data");
        }
        _ => panic!("expected serialize"),
    }
    assert!(matches!(m.step(FetchEvent::Serialized(Ok("t".to_string()))), FetchAction::Write { .. }));
    match m.step(FetchEvent::Written(Ok(()))) {
        FetchAction::Finish(Ok(c)) => assert_eq!(c.get_stroage_dir(), "/data"),
        _ => panic!("expected a configuration"),
    }
}

#[test]
fn storage_dir_given_needs_no_executable() {
    let mut m = FetchConfig::new(Some("c.toml".to_string()), None, None, Some("/d".to_string()));
    m.step(FetchEvent::Begin);
    m.step(FetchEvent::Opened(Ok(())));
    match m.step(FetchEvent::ReadDone(Ok(String::new()))) {
        FetchAction::Serialize { config, announce_empty: true } => {
            assert_eq!(config.get_ip(), "0.0.0.0:8080");
            assert_eq!(config.get_worker_count(), 1);
            assert_eq!(config.get_stroage_dir(), "/d");
        }
        _ => panic!("expected serialize"),
    }
}

#[test]
fn missing_storage_dir_with_unknown_executable_ends_the_run() {
    let mut m = FetchConfig::new(Some("c.toml".to_string()), None, None, None);
    m.step(FetchEvent::Begin);
    m.step(FetchEvent::Opened(Ok(())));
    assert!(matches!(m.step(FetchEvent::ReadDone(Ok(String::new()))), FetchAction::AnnounceEmptyAndLocate));
    assert!(matches!(
        m.step(FetchEvent::Located(Err(io_error("no exe")))),
        FetchAction::Finish(Err(FetchError::Io(_)))
    ));
}

#[test]
fn run_with_default_path_and_parsed_file() {
    let mut m = FetchConfig::new(None, None, None, None);
    m.step(FetchEvent::Begin);
    m.step(FetchEvent::Located(Ok(exe())));
    m.step(FetchEvent::Answered(Ok("Y\n".to_string())));
    match m.step(FetchEvent::Located(Ok(exe()))) {
        FetchAction::Open(p) => assert_eq!(p, "/home/u/proj/config.toml"),
        _ => panic!("expected open"),
    }
    m.step(FetchEvent::Opened(Ok(())));
    match m.step(FetchEvent::ReadDone(Ok("ip = \"x\"".to_string()))) {
        FetchAction::Parse(t) => assert_eq!(t, "ip = \"x\""),
        _ => panic!("expected parse"),
    }
    let parsed = Config::new(Some("9.9.9.9:1".to_string()), Some(8), Some("/s".to_string()), Some(&exe())).unwrap();
    match m.step(FetchEvent::Parsed(Ok(parsed))) {
        FetchAction::Serialize { config, announce_empty: false } => {
            assert_eq!(config.get_worker_count(), 8);
        }
        _ => panic!("expected serialize"),
    }
    match m.step(FetchEvent::Serialized(Err("bad".to_string()))) {
        FetchAction::Finish(Err(FetchError::Serialize(msg))) => {
            assert_eq!(msg, "Could not serialize config: bad")
        }
        _ => panic!("expected a serialization failure"),
    }
}

#[test]
fn declining_the_default_path_exits_with_one() {
    let mut m = FetchConfig::new(None, None, None, None);
    m.step(FetchEvent::Begin);
    m.step(FetchEvent::Located(Ok(exe())));
    match m.step(FetchEvent::Answered(Ok("n\n".to_string()))) {
        FetchAction::Exit(r) => assert_eq!(r.status(), 1),
        _ => panic!("expected exit"),
    }
}

#[test]
fn missing_file_is_created_on_request() {
    let mut m = FetchConfig::new(Some("/c.toml".to_string()), None, None, None);
    m.step(FetchEvent::Begin);
    assert!(matches!(m.step(FetchEvent::Opened(Err(io_error("gone")))), FetchAction::AskCreate(_)));
    match m.step(FetchEvent::Answered(Ok("y".to_string()))) {
        FetchAction::Create(p) => assert_eq!(p, "/c.toml"),
        _ => panic!("expected create"),
    }
    match m.step(FetchEvent::Created(Err(io_error("denied")))) {
        FetchAction::Exit(r) => assert_eq!(r.status(), 4),
        _ => panic!("expected exit"),
    }
}

#[test]
fn failures_end_the_run() {
    let mut m = FetchConfig::new(None, None, None, None);
    m.step(FetchEvent::Begin);
    assert!(matches!(
        m.step(FetchEvent::Located(Err(io_error("no exe")))),
        FetchAction::Finish(Err(FetchError::Io(_)))
    ));
    let mut m = FetchConfig::new(None, None, None, None);
    m.step(FetchEvent::Begin);
    m.step(FetchEvent::Located(Ok(exe())));
    m.step(FetchEvent::Answered(Ok("y".to_string())));
    m.step(FetchEvent::Located(Ok(exe())));
    m.step(FetchEvent::Opened(Err(io_error("gone"))));
    match m.step(FetchEvent::Answered(Err(io_error("stdin")))) {
        FetchAction::Exit(r) => assert_eq!(r.status(), 3),
        _ => panic!("expected exit"),
    }
}

#[test]
fn fits_checks_the_expected_event() {
    let m = FetchConfig::new(None, None, None, None);
    assert!(m.fits(&FetchEvent::Begin));
    assert!(!m.fits(&FetchEvent::Opened(Ok(()))));
    let mut m = FetchConfig::new(None, None, None, None);
    m.step(FetchEvent::Begin);
    m.step(FetchEvent::Located(Ok(exe())));
    assert!(!m.fits(&FetchEvent::Answered(Ok(String::new()))));
    assert!(!m.fits(&FetchEvent::Answered(Ok("é".to_string()))));
    assert!(m.fits(&FetchEvent::Answered(Ok("n".to_string()))));
}

fn drive(m: &mut FetchConfig, events: Vec<FetchEvent>) -> Vec<String> {
    let mut seen = Vec::new();
    for e in events {
        let a = m.step(e);
        seen.push(match a {
            FetchAction::Open(p) => format!("open {}", p),
            FetchAction::Read => "read".to_string(),
            FetchAction::Parse(t) => format!("parse {}", t),
            FetchAction::Serialize { config: c, .. } => format!("serialize {} {} {}", c.get_ip(), c.get_worker_count(), c.get_stroage_dir()),
            FetchAction::Write { path, text } => format!("write {} {}", path, text),
            FetchAction::Finish(Ok(c)) => format!("finish {}", c.get_ip()),
            _ => "other".to_string(),
        });
    }
    seen
}

#[test]
fn answering_yes_matches_giving_the_default_path() {
    let parsed = || Config::new(Some("p:1".to_string()), Some(2), Some("/q".to_string()), Some(&exe())).unwrap();
    let tail = |c: Config| vec![
        FetchEvent::Opened(Ok(())),
        FetchEvent::ReadDone(Ok("ip = \"p:1\"".to_string())),
        FetchEvent::Parsed(Ok(c)),
        FetchEvent::Serialized(Ok("t".to_string())),
        FetchEvent::Written(Ok(())),
    ];
    let mut asked = FetchConfig::new(None, None, None, None);
    let mut events = vec![
        FetchEvent::Begin,
        FetchEvent::Located(Ok(exe())),
        FetchEvent::Answered(Ok("y\n".to_string())),
        FetchEvent::Located(Ok(exe())),
    ];
    events.extend(tail(parsed()));
    let from_answer = drive(&mut asked, events);
    let mut given = FetchConfig::new(Some("/home/u/proj/config.toml".to_string()), None, None, None);
    let mut events = vec![FetchEvent::Begin];
    events.extend(tail(parsed()));
    let from_path = drive(&mut given, events);
    assert_eq!(from_answer[3..].to_vec(), from_path);
    assert_eq!(from_path[0], "open /home/u/proj/config.toml");
}
