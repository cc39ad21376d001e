//! The command line of the client: which command the arguments select, what
//! to send for it, and what to print and how to exit once the reply is in.
//!
//! Running a command takes two steps. `begin` says what to do first: either
//! everything is settled, or a request is to be sent. `conclude` takes what
//! came of sending and gives the final report. The caller does the sending
//! and the printing.

use vstd::prelude::*;
use crate::client::{
    outcome_view, report_view, status_report, status_request, trigger_report, trigger_request,
    JenkinsClient, JenkinsClientView, Request, RequestView,
};
use crate::reply::{
    is_success, message_text, reason_text, ClientError, ClientErrorView, Reply, ReplyView,
};
use crate::text::{decimal_text, same_text};

verus! {

/// The job that a command works on where the arguments name none.
pub const JOB_NAME: &'static str = "jenkins-demo";

/// What the arguments ask for.
#[derive(Debug, PartialEq, Eq)]
pub enum Command {
    /// Trigger a build of a job.
    Job { job_name: String },
    /// Show the status of a job.
    Status { job_name: String },
    /// Show the usage, as asked.
    Help,
    /// Show the usage, for want of a command.
    Usage,
}

/// What a `Command` is, over character sequences.
pub enum CommandView {
    Job { job_name: Seq<char> },
    Status { job_name: Seq<char> },
    Help,
    Usage,
}

impl View for Command {
    type V = CommandView;

    open spec fn view(&self) -> CommandView {
        match self {
            Command::Job { job_name } => CommandView::Job { job_name: job_name@ },
            Command::Status { job_name } => CommandView::Status { job_name: job_name@ },
            Command::Help => CommandView::Help,
            Command::Usage => CommandView::Usage,
        }
    }
}

/// The job to work on: the one named, else the default.
pub open spec fn job_or_default(job_name: Option<Seq<char>>) -> Seq<char> {
    match job_name {
        Some(name) => name,
        None => JOB_NAME@,
    }
}

/// The command that a subcommand and its optional argument select: `job`,
/// `status` and `help` by name, the usage for anything else and for nothing.
pub open spec fn selected_command(
    subcommand: Option<Seq<char>>,
    job_name: Option<Seq<char>>,
) -> CommandView {
    match subcommand {
        Some(name) => if name == "job"@ {
            CommandView::Job { job_name: job_or_default(job_name) }
        } else if name == "status"@ {
            CommandView::Status { job_name: job_or_default(job_name) }
        } else if name == "help"@ {
            CommandView::Help
        } else {
            CommandView::Usage
        },
        None => CommandView::Usage,
    }
}

/// The parameters that every triggered build gets.
pub open spec fn default_parameters_text() -> Seq<(Seq<char>, Seq<char>)> {
    seq![("BRANCH_NAME"@, "master"@), ("BUILD_TYPE"@, "release"@)]
}

/// The usage.
pub open spec fn help_text() -> Seq<Seq<char>> {
    seq![
        "Jenkins CLI Tool"@,
        "Usage:"@,
        "  jenkins-cli job [job-name]         - Trigger a Jenkins job"@,
        "  jenkins-cli status [job-name]      - Get job status"@,
        "  jenkins-cli help                   - Show this help"@,
        ""@,
        "Default job: "@ + JOB_NAME@,
    ]
}

/// What a run leaves behind: the lines for standard output, the lines for
/// standard error, and the exit code.
#[derive(Debug, PartialEq, Eq)]
pub struct Report {
    pub stdout: Vec<String>,
    pub stderr: Vec<String>,
    pub exit_code: i32,
}

/// What a `Report` is, over character sequences.
pub struct ReportView {
    pub stdout: Seq<Seq<char>>,
    pub stderr: Seq<Seq<char>>,
    pub exit_code: i32,
}

impl View for Report {
    type V = ReportView;

    open spec fn view(&self) -> ReportView {
        ReportView {
            stdout: self.stdout.deep_view(),
            stderr: self.stderr.deep_view(),
            exit_code: self.exit_code,
        }
    }
}

/// What to do first for a command.
#[derive(Debug, PartialEq, Eq)]
pub enum Step {
    /// Print `announce`, send `request`, and come back with the outcome.
    Send { announce: Vec<String>, request: Request },
    /// Nothing to send: print the report and exit.
    Done { report: Report },
}

/// What a `Step` is, over character sequences.
pub enum StepView {
    Send { announce: Seq<Seq<char>>, request: RequestView },
    Done { report: ReportView },
}

impl View for Step {
    type V = StepView;

    open spec fn view(&self) -> StepView {
        match self {
            Step::Send { announce, request } => StepView::Send {
                announce: announce.deep_view(),
                request: request@,
            },
            Step::Done { report } => StepView::Done { report: report@ },
        }
    }
}

/// The report that shows the usage: exit code 0 where it was asked for, 1
/// where the command was missing.
pub open spec fn usage_report(asked: bool) -> ReportView {
    ReportView {
        stdout: help_text(),
        stderr: Seq::empty(),
        exit_code: if asked {
            0
        } else {
            1
        },
    }
}

/// The report for what a call to the server came to: its lines on standard
/// output and exit code 0, or its error on standard error and exit code 1.
pub open spec fn call_report(outcome: Result<Seq<Seq<char>>, ClientErrorView>) -> ReportView {
    match outcome {
        Ok(lines) => ReportView { stdout: lines, stderr: Seq::empty(), exit_code: 0 },
        Err(error) => ReportView {
            stdout: Seq::empty(),
            stderr: seq!["❌ Error: "@ + message_text(error)],
            exit_code: 1,
        },
    }
}

/// The first step for a command: a build is announced and triggered with the
/// default parameters, a status is asked for, the usage is shown at once.
pub open spec fn first_step(client: JenkinsClientView, command: CommandView) -> StepView {
    match command {
        CommandView::Job { job_name } => StepView::Send {
            announce: seq!["🚀 Triggering Jenkins job: "@ + job_name],
            request: trigger_request(client, job_name, default_parameters_text()),
        },
        CommandView::Status { job_name } => StepView::Send {
            announce: Seq::empty(),
            request: status_request(client, job_name),
        },
        CommandView::Help => StepView::Done { report: usage_report(true) },
        CommandView::Usage => StepView::Done { report: usage_report(false) },
    }
}

/// The report of a command, given what came of sending its request. The two
/// commands that send nothing report the usage whatever the outcome says.
pub open spec fn final_report(command: CommandView, outcome: Option<ReplyView>) -> ReportView {
    match command {
        CommandView::Job { job_name } => call_report(trigger_report(job_name, outcome)),
        CommandView::Status { job_name } => call_report(status_report(job_name, outcome)),
        CommandView::Help => usage_report(true),
        CommandView::Usage => usage_report(false),
    }
}

/// The job to work on: the one named, else the default.
fn job_name_or_default(job_name: Option<&str>) -> (name: String)
    ensures
        name@ == job_or_default(job_name.deep_view()),
{
    match job_name {
        Some(name) => name.to_owned(),
        None => String::from_str(JOB_NAME),
    }
}

/// The command that the subcommand `subcommand`, with the job name that
/// followed it, selects.
pub fn select_command(subcommand: Option<&str>, job_name: Option<&str>) -> (command: Command)
    ensures
        command@ == selected_command(subcommand.deep_view(), job_name.deep_view()),
{
    match subcommand {
        Some(name) => {
            if same_text(name, "job") {
                Command::Job { job_name: job_name_or_default(job_name) }
            } else if same_text(name, "status") {
                Command::Status { job_name: job_name_or_default(job_name) }
            } else if same_text(name, "help") {
                Command::Help
            } else {
                Command::Usage
            }
        },
        None => Command::Usage,
    }
}

/// The parameters that every triggered build gets.
pub fn default_parameters() -> (parameters: Vec<(String, String)>)
    ensures
        parameters.deep_view() == default_parameters_text(),
{
    let mut parameters: Vec<(String, String)> = Vec::new();
    parameters.push((String::from_str("BRANCH_NAME"), String::from_str("master")));
    parameters.push((String::from_str("BUILD_TYPE"), String::from_str("release")));
    assert(parameters.deep_view() =~= default_parameters_text());
    parameters
}

/// The lines of the usage.
pub fn help_lines() -> (lines: Vec<String>)
    ensures
        lines.deep_view() == help_text(),
{
    let mut lines: Vec<String> = Vec::new();
    lines.push(String::from_str("Jenkins CLI Tool"));
    lines.push(String::from_str("Usage:"));
    lines.push(String::from_str("  jenkins-cli job [job-name]         - Trigger a Jenkins job"));
    lines.push(String::from_str("  jenkins-cli status [job-name]      - Get job status"));
    lines.push(String::from_str("  jenkins-cli help                   - Show this help"));
    lines.push(String::from_str(""));
    lines.push(String::from_str("Default job: ").concat(JOB_NAME));
    assert(lines.deep_view() =~= help_text());
    lines
}

/// The report that shows the usage.
fn report_usage(asked: bool) -> (report: Report)
    ensures
        report@ == usage_report(asked),
{
    let exit_code: i32 = if asked {
        0
    } else {
        1
    };
    let report = Report { stdout: help_lines(), stderr: Vec::new(), exit_code };
    assert(report@.stderr =~= Seq::empty());
    report
}

/// The report for what a call to the server came to.
pub fn report_call(outcome: Result<Vec<String>, ClientError>) -> (report: Report)
    ensures
        report@ == call_report(report_view(outcome)),
{
    match outcome {
        Ok(lines) => {
            let report = Report { stdout: lines, stderr: Vec::new(), exit_code: 0 };
            assert(report@.stderr =~= Seq::empty());
            report
        },
        Err(error) => {
            let mut stderr: Vec<String> = Vec::new();
            stderr.push(String::from_str("❌ Error: ").concat(error.message().as_str()));
            let report = Report { stdout: Vec::new(), stderr, exit_code: 1 };
            assert(report@.stdout =~= Seq::empty());
            assert(report@.stderr =~= seq!["❌ Error: "@ + message_text(error@)]);
            report
        },
    }
}

/// What to do first for `command`.
pub fn begin(client: &JenkinsClient, command: &Command) -> (step: Step)
    ensures
        step@ == first_step(client@, command@),
{
    match command {
        Command::Job { job_name } => {
            let mut announce: Vec<String> = Vec::new();
            announce.push(
                String::from_str("🚀 Triggering Jenkins job: ").concat(job_name.as_str()),
            );
            assert(announce.deep_view() =~= seq!["🚀 Triggering Jenkins job: "@ + job_name@]);
            let parameters = default_parameters();
            Step::Send {
                announce,
                request: client.trigger_job_request(job_name.as_str(), &parameters),
            }
        },
        Command::Status { job_name } => {
            let announce: Vec<String> = Vec::new();
            assert(announce.deep_view() =~= Seq::empty());
            Step::Send { announce, request: client.get_job_status_request(job_name.as_str()) }
        },
        Command::Help => Step::Done { report: report_usage(true) },
        Command::Usage => Step::Done { report: report_usage(false) },
    }
}

/// The report of `command`, given what came of sending its request.
pub fn conclude(client: &JenkinsClient, command: &Command, outcome: &Option<Reply>) -> (report:
    Report)
    ensures
        report@ == final_report(command@, outcome_view(*outcome)),
{
    match command {
        Command::Job { job_name } => report_call(
            client.trigger_job_result(job_name.as_str(), outcome),
        ),
        Command::Status { job_name } => report_call(
            client.get_job_status_result(job_name.as_str(), outcome),
        ),
        Command::Help => report_usage(true),
        Command::Usage => report_usage(false),
    }
}

/// Whether a command, given what came of sending its request, succeeds:
/// the usage was asked for, or the call to the server reports its lines.
pub open spec fn succeeds(command: CommandView, outcome: Option<ReplyView>) -> bool {
    match command {
        CommandView::Job { job_name } => trigger_report(job_name, outcome) is Ok,
        CommandView::Status { job_name } => status_report(job_name, outcome) is Ok,
        CommandView::Help => true,
        CommandView::Usage => false,
    }
}

/// The exit code is 0 where the command succeeds and 1 where it does not; a
/// command that fails on a call to the server writes nothing to standard
/// output and one line to standard error.
pub proof fn lemma_exit_code(command: CommandView, outcome: Option<ReplyView>)
    ensures
        final_report(command, outcome).exit_code == if succeeds(command, outcome) {
            0int
        } else {
            1int
        },
        succeeds(command, outcome) ==> final_report(command, outcome).stderr.len() == 0,
        !succeeds(command, outcome) && command != CommandView::Usage ==> {
            &&& final_report(command, outcome).stdout.len() == 0
            &&& final_report(command, outcome).stderr.len() == 1
        },
{
}

/// Asking for the status of a job that the server answers with a status
/// other than success exits with 1 and names that status in the one line it
/// writes to standard error: the line holds the status code in decimal,
/// followed by its reason phrase.
pub proof fn lemma_refused_status_names_the_status(job_name: Seq<char>, reply: ReplyView)
    requires
        !is_success(reply.status),
    ensures
        final_report(CommandView::Status { job_name }, Some(reply)) == (ReportView {
            stdout: Seq::empty(),
            stderr: seq![
                "❌ Error: "@ + ("jenkins API returned status "@ + (decimal_text(
                    reply.status as nat,
                ) + " "@ + reason_text(reply.status as int))),
            ],
            exit_code: 1,
        }),
{
}

/// Triggering a job that the server accepts with a `Location` exits with 0
/// and prints that header's value, as it is, at the end of the last line.
pub proof fn lemma_accepted_job_prints_the_location(
    job_name: Seq<char>,
    reply: ReplyView,
    location: Seq<char>,
)
    requires
        is_success(reply.status),
        reply.location == Some(location),
    ensures
        final_report(CommandView::Job { job_name }, Some(reply)) == (ReportView {
            stdout: seq![
                "✅ Job '"@ + job_name + "' triggered successfully"@,
                "📍 Queue URL: "@ + location,
            ],
            stderr: Seq::empty(),
            exit_code: 0,
        }),
{
    assert(final_report(CommandView::Job { job_name }, Some(reply)).stdout =~= seq![
        "✅ Job '"@ + job_name + "' triggered successfully"@,
        "📍 Queue URL: "@ + location,
    ]);
}

} // verus!
