use std::path::PathBuf;
use sys2mqtt::plugins::heart_beat::{HeartBeatConfig, HeartBeatPlugin};
use sys2mqtt::plugins::plugin::{Plugin, QoS};
use sys2mqtt::plugins::system_load::{SystemLoadConfig, SystemLoadPlugin};
use sys2mqtt::plugins::user_idle::{idle_payload, UserIdleConfig, UserIdlePlugin};

fn s(text: &str) -> Option<String> {
    Some(text.to_string())
}

const ROOT: &str = "sys2mqtt/ABC-123";

#[test]
fn heart_beat_defaults_without_section_or_env() {
    let c = HeartBeatConfig::load(None, None, None);
    assert!(c.enabled);
    assert_eq!(c.delay, 5);
    let d = HeartBeatConfig::default();
    assert!(d.enabled);
    assert_eq!(d.delay, 5);
}

#[test]
fn heart_beat_file_values_used_without_env() {
    let c = HeartBeatConfig::load(Some(HeartBeatConfig { enabled: false, delay: 30 }), None, None);
    assert!(!c.enabled);
    assert_eq!(c.delay, 30);
}

#[test]
fn heart_beat_env_takes_precedence_over_file() {
    let c = HeartBeatConfig::load(
        Some(HeartBeatConfig { enabled: false, delay: 30 }),
        s("true"),
        s("12"),
    );
    assert!(c.enabled);
    assert_eq!(c.delay, 12);
}

#[test]
fn heart_beat_invalid_env_values() {
    let c = HeartBeatConfig::load(
        Some(HeartBeatConfig { enabled: true, delay: 30 }),
        s("yes"),
        s("soon"),
    );
    assert!(!c.enabled);
    assert_eq!(c.delay, 5);
    // bool parsing is case sensitive and accepts no surrounding blanks
    assert!(!HeartBeatConfig::load(None, s("True"), None).enabled);
    assert!(!HeartBeatConfig::load(None, s(" true"), None).enabled);
    assert!(!HeartBeatConfig::load(None, s("1"), None).enabled);
}

#[test]
fn delay_parsing_follows_u64_from_str() {
    let d = |t: &str| HeartBeatConfig::load(None, None, s(t)).delay;
    assert_eq!(d("+7"), 7);
    assert_eq!(d("007"), 7);
    assert_eq!(d("18446744073709551615"), u64::MAX);
    assert_eq!(d("18446744073709551616"), 5);
    assert_eq!(d("-1"), 5);
    assert_eq!(d("-0"), 5);
    assert_eq!(d("+"), 5);
    assert_eq!(d(""), 5);
    assert_eq!(d("1 "), 5);
    assert_eq!(d("0"), 0);
}

#[test]
fn heart_beat_plugin_new_and_trait() {
    let p = HeartBeatPlugin::new(PathBuf::from("config.yaml"), ROOT.to_string(), None, None, s("9"));
    assert_eq!(p.name(), "heart_beat");
    assert!(p.is_enabled());
    assert_eq!(p.config.delay, 9);
    assert_eq!(p.root_topic, ROOT);
    assert_eq!(p.config_path, PathBuf::from("config.yaml"));
}

#[test]
fn heart_beat_publication_at_given_time() {
    let p = HeartBeatPlugin::new(PathBuf::from("c.yaml"), ROOT.to_string(), None, None, None);
    let b = p.beat_at(1_700_000_000);
    assert_eq!(b.topic, "sys2mqtt/ABC-123/heart_beat");
    assert_eq!(b.payload, "1700000000");
    assert_eq!(p.beat_at(-42).payload, "-42");
    assert_eq!(p.beat_at(0).payload, "0");
    assert_eq!(p.beat_at(i64::MIN).payload, "-9223372036854775808");
}

#[test]
fn system_load_off_without_section() {
    let c = SystemLoadConfig::load(None, None, None);
    assert!(!c.enabled);
    assert_eq!(c.delay, 5);
    let d = SystemLoadConfig::default();
    assert!(d.enabled);
    assert_eq!(d.delay, 5);
}

#[test]
fn system_load_env_and_file() {
    let file = || Some(Some(SystemLoadConfig { enabled: true, delay: 60 }));
    let c = SystemLoadConfig::load(file(), None, None);
    assert!(c.enabled);
    assert_eq!(c.delay, 60);
    let c = SystemLoadConfig::load(file(), s("false"), s("+15"));
    assert!(!c.enabled);
    assert_eq!(c.delay, 15);
    let c = SystemLoadConfig::load(file(), s("nope"), None);
    assert!(!c.enabled);
    assert_eq!(c.delay, 60);
}

#[test]
fn system_load_topics() {
    let p = SystemLoadPlugin::new(PathBuf::from("c.yaml"), ROOT.to_string(), None, s("true"), None);
    assert!(p.is_enabled());
    assert_eq!(p.name(), "system_load");
    let t = p.load_topics();
    assert_eq!(t.one_minute, "sys2mqtt/ABC-123/system_load/1m");
    assert_eq!(t.five_minutes, "sys2mqtt/ABC-123/system_load/5m");
    assert_eq!(t.fifteen_minutes, "sys2mqtt/ABC-123/system_load/15m");
}

#[test]
fn user_idle_load_defaults_and_fallbacks() {
    let c = UserIdleConfig::load(None, None, None, None);
    assert!(!c.enabled);
    assert_eq!(c.delay, 5);
    assert_eq!(c.timeout, 5);
    let d = UserIdleConfig::default();
    assert!(d.enabled);
    assert_eq!(d.delay, 5);
    assert_eq!(d.timeout, 60);
    // with a section, each value comes from its own field
    let c = UserIdleConfig::load(
        Some(Some(UserIdleConfig { enabled: true, delay: 10, timeout: 300 })),
        None,
        None,
        None,
    );
    assert!(c.enabled);
    assert_eq!(c.delay, 10);
    assert_eq!(c.timeout, 300);
    let c = UserIdleConfig::load(
        Some(Some(UserIdleConfig { enabled: true, delay: 5, timeout: 60 })),
        None,
        None,
        None,
    );
    assert!(c.enabled);
    assert_eq!(c.delay, 5);
    assert_eq!(c.timeout, 60);
    let c = UserIdleConfig::load(
        Some(Some(UserIdleConfig { enabled: true, delay: 10, timeout: 300 })),
        s("maybe"),
        s("x"),
        s("120"),
    );
    assert!(!c.enabled);
    assert_eq!(c.delay, 5);
    assert_eq!(c.timeout, 120);
    let c = UserIdleConfig::load(None, s("true"), None, s("oops"));
    assert!(c.enabled);
    assert_eq!(c.timeout, 5);
}

fn idle_plugin(timeout: &str) -> UserIdlePlugin {
    UserIdlePlugin::new(PathBuf::from("c.yaml"), ROOT.to_string(), None, s("true"), None, s(timeout))
}

#[test]
fn user_idle_first_sample_is_announced() {
    let p = idle_plugin("60");
    assert_eq!(p.name(), "user_idle");
    assert!(p.is_enabled());
    let step = p.observe(None, 3);
    assert!(!step.idle);
    let m = step.publication.unwrap();
    assert_eq!(m.topic, "sys2mqtt/ABC-123/user_idle");
    assert_eq!(m.payload, "active");
    let step = p.observe(None, 60);
    assert!(step.idle);
    assert_eq!(step.publication.unwrap().payload, "idle");
}

#[test]
fn user_idle_announces_changes_only() {
    let p = idle_plugin("60");
    let samples = [0u64, 10, 59, 60, 61, 3600, 2, 2, 100];
    let mut previous = None;
    let mut announced = Vec::new();
    for &sample in samples.iter() {
        let step = p.observe(previous, sample);
        if let Some(m) = step.publication {
            announced.push(m.payload);
        }
        previous = Some(step.idle);
    }
    assert_eq!(announced, vec!["active", "idle", "active", "idle"]);
    assert_eq!(previous, Some(true));
}

#[test]
fn user_idle_steady_state_is_silent() {
    let p = idle_plugin("30");
    assert!(p.observe(Some(true), 31).publication.is_none());
    assert!(p.observe(Some(false), 29).publication.is_none());
    assert!(p.observe(Some(false), 30).publication.is_some());
    assert!(p.observe(Some(true), 0).publication.is_some());
}

#[test]
fn user_idle_zero_timeout_is_always_idle() {
    let p = idle_plugin("0");
    let step = p.observe(None, 0);
    assert!(step.idle);
    assert_eq!(step.publication.unwrap().payload, "idle");
}

#[test]
fn idle_payload_labels() {
    assert_eq!(idle_payload(true), "idle");
    assert_eq!(idle_payload(false), "active");
}

#[test]
fn system_load_unreadable_file_or_no_section_disables() {
    let c = SystemLoadConfig::load(Some(None), None, None);
    assert!(!c.enabled);
    assert_eq!(c.delay, 5);
    let c = SystemLoadConfig::load(None, s("true"), s("8"));
    assert!(c.enabled);
    assert_eq!(c.delay, 8);
    let c = UserIdleConfig::load(None, None, s("7"), None);
    assert!(!c.enabled);
    assert_eq!(c.delay, 7);
    assert_eq!(c.timeout, 5);
}

#[test]
fn system_load_report_pairs_readings_with_topics() {
    let p = SystemLoadPlugin::new(PathBuf::from("c.yaml"), "sys2mqtt/ABC".to_string(), None, s("true"), None);
    let r = p.load_report("0.5".to_string(), "1.25".to_string(), "2".to_string());
    assert_eq!(r.one_minute.topic, "sys2mqtt/ABC/system_load/1m");
    assert_eq!(r.one_minute.payload, "0.5");
    assert_eq!(r.five_minutes.topic, "sys2mqtt/ABC/system_load/5m");
    assert_eq!(r.five_minutes.payload, "1.25");
    assert_eq!(r.fifteen_minutes.topic, "sys2mqtt/ABC/system_load/15m");
    assert_eq!(r.fifteen_minutes.payload, "2");
    for m in [&r.one_minute, &r.five_minutes, &r.fifteen_minutes] {
        assert_eq!(m.qos, QoS::AtLeastOnce);
        assert!(!m.retain);
    }
}

#[test]
fn heart_beat_delivery() {
    let p = HeartBeatPlugin::new(PathBuf::from("c.yaml"), "sys2mqtt/ABC".to_string(), None, None, None);
    let b = p.beat_at(1_700_000_000);
    assert_eq!(b.topic, "sys2mqtt/ABC/heart_beat");
    assert_eq!(b.payload, "1700000000");
    assert_eq!(b.qos, QoS::AtLeastOnce);
    assert!(!b.retain);
}

#[test]
fn user_idle_five_polls() {
    let p = UserIdlePlugin::new(
        PathBuf::from("config.yaml"),
        "sys2mqtt/ABC".to_string(),
        Some(Some(UserIdleConfig { enabled: true, delay: 5, timeout: 60 })),
        None,
        None,
        None,
    );
    let mut previous = None;
    let mut sent = Vec::new();
    for (poll, &reading) in [0u64, 10, 60, 61, 5].iter().enumerate() {
        let step = p.observe(previous, reading);
        if let Some(m) = step.publication {
            assert_eq!(m.topic, "sys2mqtt/ABC/user_idle");
            assert_eq!(m.qos, QoS::AtLeastOnce);
            assert!(!m.retain);
            sent.push((poll, m.payload));
        }
        previous = Some(step.idle);
    }
    assert_eq!(
        sent,
        vec![(0, "active".to_string()), (2, "idle".to_string()), (4, "active".to_string())]
    );
}
