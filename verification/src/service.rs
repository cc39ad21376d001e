//! The demo service: what each of its four routes answers.
//!
//! A handler is a function of a snapshot of the environment and of the clock;
//! the request itself is never read.

use vstd::prelude::*;
use crate::environment::{
    bind_address_text, branch_of, get_env_with_default, is_unset, lemma_unset_takes_default,
    version_of, Environment,
};
use crate::exposition::is_exposition;
use crate::info::{current_info, info_json, AppInfoView};
use crate::metrics::{
    current_metrics, exposition_text, lemma_metrics_exposition, metrics_lines, MetricsInfoView,
};
use crate::text::lines_of;
use crate::timestamp::Timestamp;

verus! {

/// An HTTP response, as far as the service decides it.
#[derive(Debug, PartialEq, Eq)]
pub struct Response {
    pub status: u16,
    pub content_type: String,
    pub body: String,
}

/// What a `Response` is, over character sequences.
pub struct ResponseView {
    pub status: u16,
    pub content_type: Seq<char>,
    pub body: Seq<char>,
}

impl View for Response {
    type V = ResponseView;

    open spec fn view(&self) -> ResponseView {
        ResponseView { status: self.status, content_type: self.content_type@, body: self.body@ }
    }
}

/// What the greeting says before it names the branch.
pub open spec fn greeting_opening() -> Seq<char> {
    "Hello, 2024 Kubernetes！I'm from Jenkins CI！\n分支: "@
}

/// The greeting of the root route for a branch.
pub open spec fn greeting(branch: Seq<char>) -> Seq<char> {
    greeting_opening() + branch + "\n"@
}

/// What the body of `GET /` is in an environment.
pub open spec fn root_body(vars: Seq<(Seq<char>, Seq<char>)>) -> Seq<char> {
    greeting(branch_of(vars))
}

/// What the body of `GET /metrics` is in an environment, `epoch_secs`
/// seconds after the Unix epoch.
pub open spec fn metrics_body(vars: Seq<(Seq<char>, Seq<char>)>, epoch_secs: u64) -> Seq<char> {
    exposition_text(MetricsInfoView::current(vars, epoch_secs))
}

/// What the body of `GET /api/info` is in an environment, at the instant
/// `now`.
pub open spec fn info_body(vars: Seq<(Seq<char>, Seq<char>)>, now: (int, int)) -> Seq<char> {
    info_json(AppInfoView::current(vars, now))
}

/// `GET /`: the greeting for the branch of the environment.
pub fn handle_root(env: &Environment) -> (response: Response)
    ensures
        response@ == (ResponseView {
            status: 200,
            content_type: "text/plain; charset=utf-8"@,
            body: root_body(env@),
        }),
{
    let branch: String = get_env_with_default(env, "branch", "unknown");
    let mut body: String = String::from_str(
        "Hello, 2024 Kubernetes！I'm from Jenkins CI！\n分支: ",
    );
    body.append(branch.as_str());
    body.append("\n");
    Response { status: 200, content_type: String::from_str("text/plain; charset=utf-8"), body }
}

/// `GET /health`: always the same answer, whatever the environment holds.
pub fn handle_health() -> (response: Response)
    ensures
        response@ == (ResponseView { status: 200, content_type: "text/plain"@, body: "OK"@ }),
{
    Response {
        status: 200,
        content_type: String::from_str("text/plain"),
        body: String::from_str("OK"),
    }
}

/// `GET /api/info`: the service's description of itself at `now`, as JSON.
pub fn handle_info(env: &Environment, now: Timestamp) -> (response: Response)
    ensures
        response@ == (ResponseView {
            status: 200,
            content_type: "application/json"@,
            body: info_body(env@, now@),
        }),
{
    let info = current_info(env, now);
    Response {
        status: 200,
        content_type: String::from_str("application/json"),
        body: info.to_json(),
    }
}

/// `GET /metrics`: the service's metrics, `epoch_secs` seconds after the Unix
/// epoch, in the text exposition format.
pub fn handle_metrics(env: &Environment, epoch_secs: u64) -> (response: Response)
    ensures
        response@ == (ResponseView {
            status: 200,
            content_type: "text/plain; version=0.0.4; charset=utf-8"@,
            body: metrics_body(env@, epoch_secs),
        }),
{
    let metrics = current_metrics(env, epoch_secs);
    Response {
        status: 200,
        content_type: String::from_str("text/plain; version=0.0.4; charset=utf-8"),
        body: metrics.exposition(),
    }
}

/// The greeting names its branch and no other: the branch stands as it is
/// between the opening and the closing line feed, and two greetings are the
/// same only where their branches are.
pub proof fn lemma_greeting_names_its_branch(branch: Seq<char>, other: Seq<char>)
    ensures
        greeting(branch).subrange(
            greeting_opening().len() as int,
            greeting_opening().len() as int + branch.len(),
        ) == branch,
        greeting(branch) == greeting(other) ==> branch == other,
{
    let start = greeting_opening().len() as int;
    assert(greeting(branch).subrange(start, start + branch.len()) =~= branch);
    assert(greeting(other).subrange(start, start + other.len()) =~= other);
    if greeting(branch) == greeting(other) {
        assert(greeting(branch).len() == start + branch.len() + "\n"@.len());
        assert(greeting(other).len() == start + other.len() + "\n"@.len());
    }
}

/// Every variable that is not set falls back to its default, wherever it is
/// used: `PORT` to `8080` in the address, `VERSION` to `1.0.0` and `branch`
/// to `unknown` in the greeting, in the description and in the metrics.
pub proof fn lemma_unset_variables_fall_back(
    vars: Seq<(Seq<char>, Seq<char>)>,
    now: (int, int),
    epoch_secs: u64,
)
    ensures
        is_unset(vars, "PORT"@) ==> bind_address_text(vars) == "0.0.0.0:"@ + "8080"@,
        is_unset(vars, "VERSION"@) ==> {
            &&& version_of(vars) == "1.0.0"@
            &&& AppInfoView::current(vars, now).version == "1.0.0"@
            &&& MetricsInfoView::current(vars, epoch_secs).version == "1.0.0"@
        },
        is_unset(vars, "branch"@) ==> {
            &&& branch_of(vars) == "unknown"@
            &&& root_body(vars) == greeting("unknown"@)
            &&& AppInfoView::current(vars, now).branch == "unknown"@
            &&& MetricsInfoView::current(vars, epoch_secs).branch == "unknown"@
        },
{
    if is_unset(vars, "PORT"@) {
        lemma_unset_takes_default(vars, "PORT"@, "8080"@);
    }
    if is_unset(vars, "VERSION"@) {
        lemma_unset_takes_default(vars, "VERSION"@, "1.0.0"@);
    }
    if is_unset(vars, "branch"@) {
        lemma_unset_takes_default(vars, "branch"@, "unknown"@);
    }
}

/// The body of `GET /metrics` is a well-formed exposition in every
/// environment. It has nine lines, the third of each metric being its one
/// sample, and the last reads `jenkins_demo_requests_total 0`.
pub proof fn lemma_metrics_body_is_exposition(vars: Seq<(Seq<char>, Seq<char>)>, epoch_secs: u64)
    ensures
        is_exposition(metrics_body(vars, epoch_secs)),
        lines_of(metrics_body(vars, epoch_secs)).len() == 9,
        forall|i: int|
            0 <= i < 9 ==> ((#[trigger] lines_of(metrics_body(vars, epoch_secs))[i])[0] == '#'
                <==> i % 3 != 2),
        lines_of(metrics_body(vars, epoch_secs))[8] == "jenkins_demo_requests_total 0"@,
{
    let m = MetricsInfoView::current(vars, epoch_secs);
    lemma_metrics_exposition(m);
    assert(lines_of(metrics_body(vars, epoch_secs)) == metrics_lines(m));
}

} // verus!
