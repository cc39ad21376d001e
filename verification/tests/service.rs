use jenkins_demo::environment::Environment;
use jenkins_demo::info::{current_info, write_info_object, AppInfo};
use jenkins_demo::exposition::{
    write_help_line, write_label_value, write_sample_line, write_type_line,
};
use jenkins_demo::metrics::{current_metrics, epoch_secs_or_zero, MetricsInfo};
use jenkins_demo::service::{handle_health, handle_info, handle_metrics, handle_root};
use jenkins_demo::timestamp::Timestamp;
use jenkins_demo::{bind_address, get_env_with_default};

fn env_of(pairs: &[(&str, &str)]) -> Environment {
    Environment::new(pairs.iter().map(|(k, v)| (k.to_string(), v.to_string())).collect())
}

fn parse_info(json: &str) -> AppInfo {
    let value: serde_json::Value = serde_json::from_str(json).unwrap();
    let object = value.as_object().unwrap();
    assert_eq!(object.len(), 4);
    let stamp = chrono::DateTime::parse_from_rfc3339(object["timestamp"].as_str().unwrap()).unwrap();
    AppInfo {
        message: object["message"].as_str().unwrap().to_string(),
        branch: object["branch"].as_str().unwrap().to_string(),
        timestamp: Timestamp::new(stamp.timestamp(), stamp.timestamp_subsec_nanos()).unwrap(),
        version: object["version"].as_str().unwrap().to_string(),
    }
}

#[test]
fn test_handle_root() {
    let env = env_of(&[("branch", "test-branch")]);
    let resp = handle_root(&env);
    assert_eq!(resp.status, 200);
}

#[test]
fn test_handle_health() {
    let resp = handle_health();
    assert_eq!(resp.status, 200);
}

#[test]
fn test_handle_info() {
    let env = env_of(&[("branch", "test-branch"), ("VERSION", "2.0.0")]);
    let now = chrono::Utc::now();
    let resp = handle_info(&env, Timestamp::new(now.timestamp(), now.timestamp_subsec_nanos()).unwrap());
    assert_eq!(resp.status, 200);
}

#[test]
fn test_handle_metrics() {
    let env = env_of(&[("branch", "test-branch"), ("VERSION", "2.0.0")]);
    let resp = handle_metrics(&env, 1_700_000_000);
    assert_eq!(resp.status, 200);
    assert!(resp.content_type.contains("text/plain"));
}

#[test]
fn test_get_env_with_default() {
    let env = env_of(&[]);
    let result = get_env_with_default(&env, "NONEXISTENT_KEY", "default");
    assert_eq!(result, "default");

    let env = env_of(&[("TEST_KEY", "custom")]);
    let result = get_env_with_default(&env, "TEST_KEY", "default");
    assert_eq!(result, "custom");
}

#[test]
fn test_app_info_serialization() {
    let now = chrono::Utc::now();
    let info = AppInfo {
        message: "Test message".to_string(),
        branch: "test-branch".to_string(),
        timestamp: Timestamp::new(now.timestamp(), now.timestamp_subsec_nanos()).unwrap(),
        version: "1.0.0".to_string(),
    };

    let json = info.to_json();
    let deserialized = parse_info(&json);

    assert_eq!(info, deserialized);
}

#[test]
fn test_integration_endpoints() {
    let env = env_of(&[]);
    let is_success = |status: u16| (200..300).contains(&status);

    let resp = handle_root(&env);
    assert!(is_success(resp.status));

    let resp = handle_health();
    assert!(is_success(resp.status));

    let resp = handle_info(&env, Timestamp::new(1_700_000_000, 0).unwrap());
    assert!(is_success(resp.status));

    let resp = handle_metrics(&env, 1_700_000_000);
    assert!(is_success(resp.status));
}

#[test]
fn root_greets_with_the_branch_of_the_environment() {
    let resp = handle_root(&env_of(&[("VERSION", "9"), ("branch", "feature/x")]));
    assert_eq!(resp.status, 200);
    assert_eq!(resp.content_type, "text/plain; charset=utf-8");
    assert_eq!(resp.body, "Hello, 2024 Kubernetes！I'm from Jenkins CI！\n分支: feature/x\n");
}

#[test]
fn root_falls_back_to_unknown() {
    let resp = handle_root(&env_of(&[("BRANCH", "upper-case-is-another-name")]));
    assert_eq!(resp.body, "Hello, 2024 Kubernetes！I'm from Jenkins CI！\n分支: unknown\n");
}

#[test]
fn root_keeps_an_empty_branch() {
    let resp = handle_root(&env_of(&[("branch", "")]));
    assert_eq!(resp.body, "Hello, 2024 Kubernetes！I'm from Jenkins CI！\n分支: \n");
}

#[test]
fn health_is_ok() {
    let resp = handle_health();
    assert_eq!(resp.status, 200);
    assert_eq!(resp.content_type, "text/plain");
    assert_eq!(resp.body, "OK");
}

#[test]
fn info_body_is_the_json_object_in_field_order() {
    let env = env_of(&[("branch", "test-branch"), ("VERSION", "2.0.0")]);
    let resp = handle_info(&env, Timestamp::new(1_704_164_645, 678_000_000).unwrap());
    assert_eq!(resp.status, 200);
    assert_eq!(resp.content_type, "application/json");
    assert_eq!(
        resp.body,
        "{\"message\":\"Hello from Jenkins Demo App\",\"branch\":\"test-branch\",\
         \"timestamp\":\"2024-01-02T03:04:05.678Z\",\"version\":\"2.0.0\"}"
    );
}

#[test]
fn info_falls_back_to_the_defaults() {
    let resp = handle_info(&env_of(&[]), Timestamp::new(0, 0).unwrap());
    assert_eq!(
        resp.body,
        "{\"message\":\"Hello from Jenkins Demo App\",\"branch\":\"unknown\",\
         \"timestamp\":\"1970-01-01T00:00:00Z\",\"version\":\"1.0.0\"}"
    );
}

#[test]
fn info_escapes_what_json_cannot_hold_raw() {
    let env = env_of(&[("branch", "a\"b\\c\nd\u{1}é"), ("VERSION", "\t")]);
    let stamp = Timestamp::new(1_704_164_645, 1).unwrap();
    let resp = handle_info(&env, stamp.clone());
    assert_eq!(
        resp.body,
        "{\"message\":\"Hello from Jenkins Demo App\",\"branch\":\"a\\\"b\\\\c\\nd\\u0001é\",\
         \"timestamp\":\"2024-01-02T03:04:05.000000001Z\",\"version\":\"\\t\"}"
    );
    let back = parse_info(&resp.body);
    assert_eq!(back.message, "Hello from Jenkins Demo App");
    assert_eq!(back.branch, "a\"b\\c\nd\u{1}é");
    assert_eq!(back.version, "\t");
    assert_eq!(back.timestamp, stamp);
}

#[test]
fn info_json_agrees_with_a_derived_serializer() {
    let stamp = chrono::DateTime::from_timestamp(1_704_164_645, 123_456_000).unwrap();
    let mut expected = serde_json::Map::new();
    expected.insert("message".to_string(), serde_json::Value::from("m"));
    expected.insert("branch".to_string(), serde_json::Value::from("b"));
    expected.insert("timestamp".to_string(), serde_json::to_value(stamp).unwrap());
    expected.insert("version".to_string(), serde_json::Value::from("v"));
    let info = AppInfo {
        message: "m".to_string(),
        branch: "b".to_string(),
        timestamp: Timestamp::new(1_704_164_645, 123_456_000).unwrap(),
        version: "v".to_string(),
    };
    let value: serde_json::Value = serde_json::from_str(&info.to_json()).unwrap();
    assert_eq!(value, serde_json::Value::Object(expected));
}

#[test]
fn timestamp_uses_as_many_fraction_digits_as_needed() {
    assert_eq!(Timestamp::new(0, 0).unwrap().to_rfc3339(), "1970-01-01T00:00:00Z");
    assert_eq!(Timestamp::new(0, 120_000_000).unwrap().to_rfc3339(), "1970-01-01T00:00:00.120Z");
    assert_eq!(Timestamp::new(0, 120_300).unwrap().to_rfc3339(), "1970-01-01T00:00:00.000120300Z");
    assert_eq!(Timestamp::new(0, 120_000).unwrap().to_rfc3339(), "1970-01-01T00:00:00.000120Z");
    assert_eq!(Timestamp::new(-1, 0).unwrap().to_rfc3339(), "1969-12-31T23:59:59Z");
    assert_eq!(
        Timestamp::new(253_402_300_799, 999_999_999).unwrap().to_rfc3339(),
        "9999-12-31T23:59:59.999999999Z"
    );
}

#[test]
fn timestamp_keeps_its_parts() {
    let stamp = Timestamp::new(1_704_164_645, 678).unwrap();
    assert_eq!(stamp.secs(), 1_704_164_645);
    assert_eq!(stamp.nanos(), 678);
    assert_eq!(stamp.clone(), stamp);
}

#[test]
fn timestamp_refuses_what_the_calendar_cannot_hold() {
    assert!(Timestamp::new(i64::MAX, 0).is_none());
    assert!(Timestamp::new(i64::MIN, 0).is_none());
    assert!(Timestamp::new(0, 2_000_000_000).is_none());
    assert!(Timestamp::new(0, 1_000_000_000).is_none());
    assert!(Timestamp::new(59, 1_000_000_000).is_some());
}

#[test]
fn metrics_body_is_the_exposition() {
    let env = env_of(&[("branch", "test-branch"), ("VERSION", "2.0.0")]);
    let resp = handle_metrics(&env, 1_700_000_123);
    assert_eq!(resp.status, 200);
    assert_eq!(resp.content_type, "text/plain; version=0.0.4; charset=utf-8");
    assert_eq!(
        resp.body,
        "# HELP jenkins_demo_info Application information\n\
         # TYPE jenkins_demo_info gauge\n\
         jenkins_demo_info{version=\"2.0.0\",branch=\"test-branch\"} 1\n\
         # HELP jenkins_demo_uptime_seconds Uptime in seconds\n\
         # TYPE jenkins_demo_uptime_seconds counter\n\
         jenkins_demo_uptime_seconds 1700000123\n\
         # HELP jenkins_demo_requests_total Total number of requests\n\
         # TYPE jenkins_demo_requests_total counter\n\
         jenkins_demo_requests_total 0\n"
    );
}

#[test]
fn metrics_has_one_sample_for_each_metric() {
    let resp = handle_metrics(&env_of(&[]), 0);
    let lines: Vec<&str> = resp.body.lines().collect();
    assert_eq!(lines.len(), 9);
    assert_eq!(lines.iter().filter(|l| l.starts_with("jenkins_demo_info{")).count(), 1);
    assert_eq!(lines.iter().filter(|l| l.starts_with("jenkins_demo_uptime_seconds ")).count(), 1);
    assert_eq!(lines.iter().filter(|l| **l == "jenkins_demo_requests_total 0").count(), 1);
    assert_eq!(lines[2], "jenkins_demo_info{version=\"1.0.0\",branch=\"unknown\"} 1");
    assert_eq!(lines[5], "jenkins_demo_uptime_seconds 0");
    assert!(resp.body.ends_with('\n'));
}

#[test]
fn metrics_writes_the_figures_it_is_given() {
    let metrics = MetricsInfo {
        uptime_seconds: u64::MAX,
        requests_total: 42,
        version: "v".to_string(),
        branch: "b".to_string(),
    };
    let text = metrics.exposition();
    assert!(text.contains("\njenkins_demo_uptime_seconds 18446744073709551615\n"));
    assert!(text.ends_with("\njenkins_demo_requests_total 42\n"));
    assert!(text.contains("\njenkins_demo_info{version=\"v\",branch=\"b\"} 1\n"));
}

#[test]
fn metrics_escapes_label_values() {
    let resp = handle_metrics(&env_of(&[("branch", "a\"b"), ("VERSION", "1\\2")]), 1);
    let lines: Vec<&str> = resp.body.lines().collect();
    assert_eq!(lines.len(), 9);
    assert_eq!(lines[2], "jenkins_demo_info{version=\"1\\\\2\",branch=\"a\\\"b\"} 1");
}

#[test]
fn metrics_keeps_a_line_feed_in_a_label_on_its_line() {
    let env = env_of(&[("branch", "x\njenkins_demo_requests_total 5")]);
    let resp = handle_metrics(&env, 0);
    let lines: Vec<&str> = resp.body.lines().collect();
    assert_eq!(lines.len(), 9);
    assert_eq!(
        lines[2],
        "jenkins_demo_info{version=\"1.0.0\",branch=\"x\\njenkins_demo_requests_total 5\"} 1"
    );
    assert_eq!(lines.iter().filter(|l| !l.starts_with('#')).count(), 3);
    assert_eq!(lines.iter().filter(|l| l.starts_with("jenkins_demo_info{")).count(), 1);
    assert_eq!(lines.iter().filter(|l| l.starts_with("jenkins_demo_uptime_seconds ")).count(), 1);
    assert_eq!(lines.iter().filter(|l| l.starts_with("jenkins_demo_requests_total")).count(), 1);
    assert_eq!(lines[8], "jenkins_demo_requests_total 0");
}

#[test]
fn label_values_are_escaped_character_by_character() {
    assert_eq!(write_label_value(""), "");
    assert_eq!(write_label_value("plain text é 分支"), "plain text é 分支");
    assert_eq!(write_label_value("\""), "\\\"");
    assert_eq!(write_label_value("\\"), "\\\\");
    assert_eq!(write_label_value("\n"), "\\n");
    assert_eq!(write_label_value("a\\n\"b\nc\r\t"), "a\\\\n\\\"b\\nc\r\t");
}

#[test]
fn a_clock_before_the_epoch_counts_as_zero() {
    assert_eq!(epoch_secs_or_zero(None), 0);
    assert_eq!(epoch_secs_or_zero(Some(0)), 0);
    assert_eq!(epoch_secs_or_zero(Some(1_700_000_000)), 1_700_000_000);
    assert_eq!(epoch_secs_or_zero(Some(u64::MAX)), u64::MAX);
}

#[test]
fn missing_variables_fall_back_to_the_defaults() {
    let env = env_of(&[]);
    assert_eq!(bind_address(&env), "0.0.0.0:8080");
    assert_eq!(get_env_with_default(&env, "PORT", "8080"), "8080");
    assert_eq!(get_env_with_default(&env, "VERSION", "1.0.0"), "1.0.0");
    assert_eq!(get_env_with_default(&env, "branch", "unknown"), "unknown");
}

#[test]
fn bind_address_uses_the_port_of_the_environment() {
    assert_eq!(bind_address(&env_of(&[("PORT", "9090")])), "0.0.0.0:9090");
    assert_eq!(bind_address(&env_of(&[("PORT", "")])), "0.0.0.0:");
}

#[test]
fn the_first_of_two_equal_names_counts() {
    let env = env_of(&[("A", "1"), ("B", "2"), ("A", "3")]);
    assert_eq!(env.get("A").map(|s| s.as_str()), Some("1"));
    assert_eq!(env.get("B").map(|s| s.as_str()), Some("2"));
    assert_eq!(env.get("C"), None);
    assert_eq!(env.get("a"), None);
    assert_eq!(env.get(""), None);
}

#[test]
fn info_object_frames_the_four_values_in_order() {
    assert_eq!(
        write_info_object("1", "[2]", "null", "\"4\""),
        "{\"message\":1,\"branch\":[2],\"timestamp\":null,\"version\":\"4\"}"
    );
}

#[test]
fn current_info_takes_branch_and_version_from_the_environment() {
    let stamp = Timestamp::new(5, 6).unwrap();
    let info = current_info(&env_of(&[("VERSION", "3.1"), ("branch", "dev")]), stamp.clone());
    assert_eq!(
        info,
        AppInfo {
            message: "Hello from Jenkins Demo App".to_string(),
            branch: "dev".to_string(),
            timestamp: stamp,
            version: "3.1".to_string(),
        }
    );
}

#[test]
fn current_metrics_counts_no_request() {
    let metrics = current_metrics(&env_of(&[("VERSION", "3.1")]), 77);
    assert_eq!(
        metrics,
        MetricsInfo {
            uptime_seconds: 77,
            requests_total: 0,
            version: "3.1".to_string(),
            branch: "unknown".to_string(),
        }
    );
}

#[test]
fn exposition_lines_are_written_piece_by_piece() {
    assert_eq!(write_help_line("m", "what it is"), "# HELP m what it is");
    assert_eq!(write_type_line("m", "gauge"), "# TYPE m gauge");
    assert_eq!(write_sample_line("m", &vec![], "12"), "m 12");
    let one = vec![("a".to_string(), "x".to_string())];
    assert_eq!(write_sample_line("m", &one, "1"), "m{a=\"x\"} 1");
    let three = vec![
        ("a".to_string(), "x".to_string()),
        ("b".to_string(), "".to_string()),
        ("c".to_string(), "z z".to_string()),
    ];
    assert_eq!(write_sample_line("m", &three, "0"), "m{a=\"x\",b=\"\",c=\"z z\"} 0");
    let quoted = vec![("a".to_string(), "say \"hi\"".to_string())];
    assert_eq!(write_sample_line("m", &quoted, "0"), "m{a=\"say \\\"hi\\\"\"} 0");
}
