use jenkins_demo::cli::{begin, conclude, default_parameters, help_lines, report_call, select_command, Command, Report, Step, JOB_NAME};
use jenkins_demo::client::{JenkinsClient, Method};
use jenkins_demo::reply::{ClientError, Reply};

fn client() -> JenkinsClient {
    JenkinsClient {
        base_url: "http://ci.example:8080".to_string(),
        username: "Aladdin".to_string(),
        token: "open sesame".to_string(),
    }
}

fn help() -> Vec<String> {
    vec![
        "Jenkins CLI Tool".to_string(),
        "Usage:".to_string(),
        "  jenkins-cli job [job-name]         - Trigger a Jenkins job".to_string(),
        "  jenkins-cli status [job-name]      - Get job status".to_string(),
        "  jenkins-cli help                   - Show this help".to_string(),
        "".to_string(),
        "Default job: jenkins-demo".to_string(),
    ]
}

#[test]
fn status_of_a_missing_job_exits_with_1_and_names_the_status() {
    let command = select_command(Some("status"), Some("missing-job"));
    assert_eq!(command, Command::Status { job_name: "missing-job".to_string() });
    let outcome = Some(Reply::new(404, None, Some(b"Not found".to_vec())).unwrap());
    let report = conclude(&client(), &command, &outcome);
    assert_eq!(report.exit_code, 1);
    assert_eq!(report.stdout, Vec::<String>::new());
    assert_eq!(report.stderr, vec!["❌ Error: jenkins API returned status 404 Not Found".to_string()]);
    assert!(report.stderr[0].contains("404"));
}

#[test]
fn triggering_a_job_prints_the_location_and_exits_with_0() {
    let command = select_command(Some("job"), Some("demo"));
    assert_eq!(command, Command::Job { job_name: "demo".to_string() });
    let location = "http://ci.example:8080/queue/item/12/";
    let outcome = Some(Reply::new(201, Some(location.to_string()), Some(Vec::new())).unwrap());
    let report = conclude(&client(), &command, &outcome);
    assert_eq!(report.exit_code, 0);
    assert_eq!(report.stderr, Vec::<String>::new());
    assert_eq!(
        report.stdout,
        vec![
            "✅ Job 'demo' triggered successfully".to_string(),
            format!("📍 Queue URL: {}", location),
        ]
    );
    assert!(report.stdout.iter().any(|line| line.contains(location)));
}

#[test]
fn commands_are_selected_by_name() {
    assert_eq!(select_command(Some("job"), None), Command::Job { job_name: "jenkins-demo".to_string() });
    assert_eq!(select_command(Some("status"), None), Command::Status { job_name: JOB_NAME.to_string() });
    assert_eq!(select_command(Some("status"), Some("")), Command::Status { job_name: String::new() });
    assert_eq!(select_command(Some("help"), None), Command::Help);
    assert_eq!(select_command(Some("help"), Some("x")), Command::Help);
    assert_eq!(select_command(None, None), Command::Usage);
    assert_eq!(select_command(None, Some("demo")), Command::Usage);
    assert_eq!(select_command(Some("Job"), None), Command::Usage);
    assert_eq!(select_command(Some(""), None), Command::Usage);
    assert_eq!(select_command(Some("build"), Some("demo")), Command::Usage);
}

#[test]
fn default_parameters_are_the_two_fixed_ones() {
    assert_eq!(
        default_parameters(),
        vec![
            ("BRANCH_NAME".to_string(), "master".to_string()),
            ("BUILD_TYPE".to_string(), "release".to_string()),
        ]
    );
}

#[test]
fn help_lines_are_the_usage() {
    assert_eq!(help_lines(), help());
}

#[test]
fn help_is_shown_at_once_and_exits_with_0() {
    let expected = Report { stdout: help(), stderr: vec![], exit_code: 0 };
    assert_eq!(begin(&client(), &Command::Help), Step::Done { report: expected });
    let again = conclude(&client(), &Command::Help, &None);
    assert_eq!(again, Report { stdout: help(), stderr: vec![], exit_code: 0 });
}

#[test]
fn a_missing_command_shows_the_usage_and_exits_with_1() {
    let expected = Report { stdout: help(), stderr: vec![], exit_code: 1 };
    assert_eq!(begin(&client(), &Command::Usage), Step::Done { report: expected });
    let again = conclude(&client(), &Command::Usage, &Some(Reply::new(200, None, None).unwrap()));
    assert_eq!(again, Report { stdout: help(), stderr: vec![], exit_code: 1 });
}

#[test]
fn a_job_is_announced_and_triggered_with_the_default_parameters() {
    let step = begin(&client(), &Command::Job { job_name: "demo".to_string() });
    match step {
        Step::Send { announce, request } => {
            assert_eq!(announce, vec!["🚀 Triggering Jenkins job: demo".to_string()]);
            assert_eq!(request.method, Method::Post);
            assert_eq!(request.url, "http://ci.example:8080/job/demo/buildWithParameters");
            assert_eq!(
                request.body.as_deref(),
                Some("{\"BRANCH_NAME\":\"master\",\"BUILD_TYPE\":\"release\"}")
            );
            assert_eq!(request, client().trigger_job_request("demo", &default_parameters()));
        },
        Step::Done { .. } => panic!("a job sends a request"),
    }
}

#[test]
fn a_status_is_asked_for_without_announcement() {
    let step = begin(&client(), &Command::Status { job_name: "demo".to_string() });
    match step {
        Step::Send { announce, request } => {
            assert_eq!(announce, Vec::<String>::new());
            assert_eq!(request, client().get_job_status_request("demo"));
        },
        Step::Done { .. } => panic!("a status sends a request"),
    }
}

#[test]
fn a_failed_connection_exits_with_1() {
    for command in [Command::Job { job_name: "a".to_string() }, Command::Status { job_name: "a".to_string() }] {
        let report = conclude(&client(), &command, &None);
        assert_eq!(
            report,
            Report { stdout: vec![], stderr: vec!["❌ Error: connection error".to_string()], exit_code: 1 }
        );
    }
}

#[test]
fn a_status_that_decodes_exits_with_0() {
    let outcome = Some(Reply::new(200, None, Some(b"{\"name\":\"demo\"}".to_vec())).unwrap());
    let report = conclude(&client(), &Command::Status { job_name: "demo".to_string() }, &outcome);
    assert_eq!(
        report,
        Report {
            stdout: vec!["📊 Job Status for 'demo':".to_string(), "   Name: \"demo\"".to_string()],
            stderr: vec![],
            exit_code: 0,
        }
    );
}

#[test]
fn a_status_that_does_not_decode_exits_with_1() {
    let outcome = Some(Reply::new(200, None, Some(b"<html>".to_vec())).unwrap());
    let report = conclude(&client(), &Command::Status { job_name: "demo".to_string() }, &outcome);
    assert_eq!(report.exit_code, 1);
    assert_eq!(report.stderr, vec!["❌ Error: failed to decode response".to_string()]);
}

#[test]
fn a_refused_trigger_exits_with_1_and_shows_the_body() {
    let outcome = Some(Reply::new(401, None, Some(b"bad credentials".to_vec())).unwrap());
    let report = conclude(&client(), &Command::Job { job_name: "demo".to_string() }, &outcome);
    assert_eq!(report.exit_code, 1);
    assert_eq!(report.stdout, Vec::<String>::new());
    assert_eq!(
        report.stderr,
        vec!["❌ Error: jenkins API returned status 401 Unauthorized: bad credentials".to_string()]
    );
}

#[test]
fn report_call_turns_a_result_into_a_report() {
    assert_eq!(
        report_call(Ok(vec!["a".to_string(), "b".to_string()])),
        Report { stdout: vec!["a".to_string(), "b".to_string()], stderr: vec![], exit_code: 0 }
    );
    assert_eq!(
        report_call(Err(ClientError::Decode)),
        Report {
            stdout: vec![],
            stderr: vec!["❌ Error: failed to decode response".to_string()],
            exit_code: 1,
        }
    );
}
