use clashbar::aggregate::{AggregateState, TrafficSample};
use clashbar::config::{load_config, make_config, ConfigError};
use clashbar::driver::{step, DriverAction, DriverEvent, DriverState};
use clashbar::emit::{blank_record, render_json_line, render_record, ConnectionSummary, EmissionPayload, OutputRecord};
use clashbar::format::{format_byte, format_rate};
use clashbar::numfmt::u64_to_decimal;
use clashbar::pattern::{compile_pattern, resolve_display_name};
use clashbar::topology::{resolve_profile, Group, Topology, TopologyError};

fn topo(pairs: &[(&str, Option<&str>)]) -> Topology {
    Topology {
        groups: pairs
            .iter()
            .map(|(name, now)| Group {
                name: name.to_string(),
                now: now.map(|s| s.to_string()),
            })
            .collect(),
    }
}

#[test]
fn format_byte_zero_is_zero_with_unit() {
    assert_eq!(format_byte(0), "0b");
    assert_eq!(format_rate(0), "0b/s");
}

#[test]
fn format_byte_literal_pairs() {
    assert_eq!(format_byte(1536), "1.5kb");
    assert_eq!(format_byte(1024), "1.0kb");
    assert_eq!(format_byte(1048576), "1048.6kb");
    assert_eq!(format_byte(2000000), "2.0mb");
    assert_eq!(format_byte(500), "500b");
    assert_eq!(format_byte(4096), "4.1kb");
    assert_eq!(format_rate(1536), "1.5kb/s");
}

#[test]
fn decimal_rendering() {
    assert_eq!(u64_to_decimal(0), "0");
    assert_eq!(u64_to_decimal(7), "7");
    assert_eq!(u64_to_decimal(42), "42");
    assert_eq!(u64_to_decimal(1000), "1000");
    assert_eq!(u64_to_decimal(u64::MAX), "18446744073709551615");
}

#[test]
fn running_max_over_nondecreasing_sequence() {
    let mut st = AggregateState::new();
    let samples = [(1u64, 2u64), (3, 4), (5, 6), (500, 700)];
    for (i, (up, down)) in samples.iter().enumerate() {
        st.observe(
            TrafficSample { up: *up, down: *down },
            i as u64 * 100,
            3600,
        );
    }
    assert_eq!(st.max_upload, 500);
    assert_eq!(st.max_download, 700);
}

#[test]
fn running_max_absorbs_every_sample_regardless_of_order() {
    let mut st = AggregateState::new();
    let samples = [(9u64, 1u64), (2, 8), (7, 3), (1, 1)];
    for (i, (up, down)) in samples.iter().enumerate() {
        st.observe(
            TrafficSample { up: *up, down: *down },
            i as u64,
            3600,
        );
    }
    assert_eq!(st.max_upload, 9);
    assert_eq!(st.max_download, 8);
}

#[test]
fn first_sample_emits_immediately_then_rate_limited() {
    let mut st = AggregateState::new();
    assert!(st.observe(TrafficSample { up: 100, down: 200 }, 0, 1));
    assert_eq!(st.last_emitted_at, Some(0));
    assert!(!st.observe(TrafficSample { up: 50, down: 500 }, 500, 1));
    assert_eq!(st.max_download, 500);
    assert_eq!(st.last_emitted_at, Some(0));
    assert!(st.observe(TrafficSample { up: 10, down: 10 }, 1200, 1));
    assert_eq!(st.last_emitted_at, Some(1200));
    assert_eq!(st.max_upload, 100);
    assert_eq!(st.max_download, 500);
}

#[test]
fn profile_resolution_without_pattern() {
    let t = topo(&[("GLOBAL", Some("A")), ("A", Some("profile-2-US"))]);
    assert_eq!(resolve_profile(&t).unwrap(), "profile-2-US");
}

#[test]
fn profile_resolution_with_pattern() {
    let t = topo(&[("GLOBAL", Some("A")), ("A", Some("profile-2-US"))]);
    let raw = resolve_profile(&t).unwrap();
    let p = compile_pattern("\\d+").unwrap();
    assert_eq!(resolve_display_name(raw, &Some(p)), "2");
}

#[test]
fn profile_resolution_pattern_without_match_keeps_name() {
    let p = compile_pattern("xyz+").unwrap();
    assert_eq!(
        resolve_display_name("profile-2-US".to_string(), &Some(p)),
        "profile-2-US"
    );
}

#[test]
fn invalid_pattern_is_rejected_at_compile_time() {
    assert!(compile_pattern("[").is_err());
}

#[test]
fn missing_global_group_is_an_error_not_a_fallback() {
    let t = topo(&[("A", Some("profile-2-US")), ("B", Some("other"))]);
    assert_eq!(resolve_profile(&t).unwrap_err(), TopologyError::MissingGlobal);
}

#[test]
fn unset_global_selection_is_an_error() {
    let t = topo(&[("GLOBAL", None), ("A", Some("p"))]);
    assert_eq!(resolve_profile(&t).unwrap_err(), TopologyError::UnsetGlobal);
}

#[test]
fn missing_selected_group_is_an_error() {
    let t = topo(&[("GLOBAL", Some("A"))]);
    assert_eq!(resolve_profile(&t).unwrap_err(), TopologyError::MissingGroup);
}

#[test]
fn unset_group_selection_is_an_error() {
    let t = topo(&[("GLOBAL", Some("A")), ("A", None)]);
    assert_eq!(resolve_profile(&t).unwrap_err(), TopologyError::UnsetGroup);
}

#[test]
fn stream_error_emits_exactly_one_blank_before_reload() {
    let (s1, a1) = step(DriverState::Streaming, DriverEvent::StreamItemError);
    assert_eq!(s1, DriverState::Idle);
    assert_eq!(a1, vec![DriverAction::EmitBlank, DriverAction::SleepBackoff]);
    let (s2, a2) = step(s1, DriverEvent::Slept);
    assert_eq!(s2, DriverState::Loading);
    assert_eq!(a2, vec![DriverAction::ReloadConfig]);
    let blanks = a1
        .iter()
        .chain(a2.iter())
        .filter(|a| **a == DriverAction::EmitBlank)
        .count();
    assert_eq!(blanks, 1);
}

#[test]
fn driver_full_cycle() {
    let (s, a) = step(DriverState::Loading, DriverEvent::ConfigOk);
    assert_eq!(s, DriverState::Connecting);
    assert_eq!(a, vec![DriverAction::BuildClient]);
    let (s, a) = step(s, DriverEvent::ConnectOk);
    assert_eq!(s, DriverState::Streaming);
    assert_eq!(a, vec![DriverAction::PullSample]);
    let (s, a) = step(s, DriverEvent::SampleHandled);
    assert_eq!(s, DriverState::Streaming);
    assert_eq!(a, vec![DriverAction::PullSample]);
    let (s, a) = step(s, DriverEvent::StreamEnded);
    assert_eq!(s, DriverState::Idle);
    assert_eq!(a, vec![DriverAction::EmitBlank, DriverAction::SleepBackoff]);
}

#[test]
fn config_failure_aborts() {
    let (_, a) = step(DriverState::Loading, DriverEvent::ConfigFailed);
    assert_eq!(a, vec![DriverAction::AbortProcess]);
    let (_, a) = step(DriverState::Connecting, DriverEvent::ConnectFailed);
    assert_eq!(a, vec![DriverAction::AbortProcess]);
}

#[test]
fn load_config_extracts_url_and_secret() {
    let text = "{\"experimental\":{\"clash_api\":{\"external_controller\":\"127.0.0.1:9090\",\"secret\":\"s3cr3t\"}}}";
    let cfg = load_config(text).unwrap();
    assert_eq!(cfg.controller_url, "http://127.0.0.1:9090");
    assert_eq!(cfg.secret.as_deref(), Some("s3cr3t"));
}

#[test]
fn load_config_rejects_invalid_json() {
    assert_eq!(load_config("not json").unwrap_err(), ConfigError::Malformed);
}

#[test]
fn load_config_rejects_missing_fields() {
    assert_eq!(load_config("{}").unwrap_err(), ConfigError::MissingField);
    assert_eq!(load_config("[1,2]").unwrap_err(), ConfigError::MissingField);
    assert_eq!(
        load_config("{\"experimental\":{}}").unwrap_err(),
        ConfigError::MissingField
    );
    assert_eq!(
        load_config("{\"experimental\":{\"clash_api\":{\"secret\":\"x\"}}}").unwrap_err(),
        ConfigError::MissingField
    );
    assert_eq!(
        load_config("{\"experimental\":{\"clash_api\":{\"external_controller\":\"h:1\"}}}")
            .unwrap_err(),
        ConfigError::MissingField
    );
    assert_eq!(
        load_config("{\"experimental\":{\"clash_api\":{\"external_controller\":7,\"secret\":\"x\"}}}")
            .unwrap_err(),
        ConfigError::MissingField
    );
}

#[test]
fn make_config_requires_both_fields() {
    assert_eq!(
        make_config(None, Some("s".to_string())).unwrap_err(),
        ConfigError::MissingField
    );
    assert_eq!(
        make_config(Some("h:1".to_string()), None).unwrap_err(),
        ConfigError::MissingField
    );
    let cfg = make_config(Some("h:1".to_string()), Some("s".to_string())).unwrap();
    assert_eq!(cfg.controller_url, "http://h:1");
}

#[test]
fn blank_record_is_empty() {
    let r = blank_record();
    assert_eq!(r.text, "");
    assert_eq!(r.tooltip, "");
    assert_eq!(
        render_json_line(&r),
        "{\"alt\":\"\",\"class\":\"\",\"percentage\":0,\"text\":\"\",\"tooltip\":\"\"}"
    );
}

#[test]
fn tooltip_layout() {
    let p = EmissionPayload {
        sample: TrafficSample { up: 10, down: 10 },
        max_upload: 100,
        max_download: 500,
        summary: Some(ConnectionSummary {
            active_connection_count: 3,
            cumulative_upload_bytes: 2048,
            cumulative_download_bytes: 4096,
        }),
        profile_name: "profile-2-US".to_string(),
    };
    let r = render_record(&p, "#B985FA", "#FA699B");
    assert_eq!(r.text, "profile-2-US");
    let expected = " 3 <span foreground='#B985FA'> 10b/s</span> <span foreground='#FA699B'> 10b/s</span>\nMax: <span foreground='#B985FA'> 500b/s</span> <span foreground='#FA699B'> 100b/s</span>\nTotal: <span foreground='#B985FA'> 4.1kb</span> <span foreground='#FA699B'> 2.0kb</span>";
    assert_eq!(r.tooltip, expected);
}

#[test]
fn tooltip_degrades_to_empty_fields_without_summary() {
    let p = EmissionPayload {
        sample: TrafficSample { up: 0, down: 0 },
        max_upload: 0,
        max_download: 0,
        summary: None,
        profile_name: "p".to_string(),
    };
    let r = render_record(&p, "#000000", "#ffffff");
    let expected = "  <span foreground='#000000'> 0b/s</span> <span foreground='#ffffff'> 0b/s</span>\nMax: <span foreground='#000000'> 0b/s</span> <span foreground='#ffffff'> 0b/s</span>\nTotal: <span foreground='#000000'> </span> <span foreground='#ffffff'> </span>";
    assert_eq!(r.tooltip, expected);
}

fn serde_line(text: &str, tooltip: &str) -> String {
    let mut m = serde_json::Map::new();
    m.insert("alt".to_string(), serde_json::Value::String(String::new()));
    m.insert("class".to_string(), serde_json::Value::String(String::new()));
    m.insert(
        "percentage".to_string(),
        serde_json::Value::Number(serde_json::Number::from(0)),
    );
    m.insert("text".to_string(), serde_json::Value::String(text.to_string()));
    m.insert(
        "tooltip".to_string(),
        serde_json::Value::String(tooltip.to_string()),
    );
    serde_json::Value::Object(m).to_string()
}

#[test]
fn json_line_matches_reference_serializer() {
    let cases: &[(&str, &str)] = &[
        ("profile-2-US", "plain tooltip"),
        ("with \"quotes\"", "line one\nline two"),
        ("back\\slash", "tab\there"),
        ("control\u{1}char", "\r\u{8}\u{c}"),
        ("", ""),
        ("unicode \u{00e9}\u{4e2d}", "emoji \u{1f600}"),
    ];
    for (text, tooltip) in cases {
        let rec = OutputRecord {
            text: text.to_string(),
            tooltip: tooltip.to_string(),
        };
        assert_eq!(render_json_line(&rec), serde_line(text, tooltip));
    }
}

#[test]
fn end_to_end_emission_cycle() {
    let text = "{\"experimental\":{\"clash_api\":{\"external_controller\":\"127.0.0.1:9090\",\"secret\":\"s3cr3t\"}}}";
    let cfg = load_config(text).unwrap();
    assert_eq!(cfg.controller_url, "http://127.0.0.1:9090");
    assert_eq!(cfg.secret.as_deref(), Some("s3cr3t"));

    let t = topo(&[("GLOBAL", Some("A")), ("A", Some("profile-2-US"))]);
    let profile = resolve_display_name(resolve_profile(&t).unwrap(), &None);

    let mut st = AggregateState::new();
    // First sample at t=0 with interval 1: emits immediately.
    assert!(st.observe(TrafficSample { up: 100, down: 200 }, 0, 1));
    let first_payload = EmissionPayload {
        sample: TrafficSample { up: 100, down: 200 },
        max_upload: st.max_upload,
        max_download: st.max_download,
        summary: Some(ConnectionSummary {
            active_connection_count: 2,
            cumulative_upload_bytes: 10,
            cumulative_download_bytes: 20,
        }),
        profile_name: profile.clone(),
    };
    let first_record = render_record(&first_payload, "#B985FA", "#FA699B");
    assert_eq!(first_record.text, "profile-2-US");
    assert!(first_record.tooltip.contains(" 2 "));
    assert!(first_record.tooltip.contains("Max: "));

    // Second sample at t=0.5s: suppressed, but the maximum updates.
    assert!(!st.observe(TrafficSample { up: 50, down: 500 }, 500, 1));
    assert_eq!(st.max_download, 500);

    // Third sample at t=1.2s: emits, maxima are 100/500.
    assert!(st.observe(TrafficSample { up: 10, down: 10 }, 1200, 1));
    let third_payload = EmissionPayload {
        sample: TrafficSample { up: 10, down: 10 },
        max_upload: st.max_upload,
        max_download: st.max_download,
        summary: Some(ConnectionSummary {
            active_connection_count: 3,
            cumulative_upload_bytes: 2048,
            cumulative_download_bytes: 4096,
        }),
        profile_name: profile,
    };
    let third_record = render_record(&third_payload, "#B985FA", "#FA699B");
    assert_eq!(third_record.text, "profile-2-US");
    assert!(third_record.tooltip.contains("<span foreground='#B985FA'> 10b/s</span>"));
    assert!(third_record.tooltip.contains("Max: <span foreground='#B985FA'> 500b/s</span>"));
    assert!(third_record.tooltip.contains("<span foreground='#FA699B'> 100b/s</span>"));
    let line = render_json_line(&third_record);
    assert!(line.starts_with("{\"alt\":\"\",\"class\":\"\",\"percentage\":0,\"text\":\"profile-2-US\",\"tooltip\":\""));
    assert!(line.ends_with("\"}"));
    assert_eq!(line, serde_line(&third_record.text, &third_record.tooltip));
}
