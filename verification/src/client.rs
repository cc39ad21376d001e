//! The client of the CI server: the requests it makes, and what it makes of
//! the replies.
//!
//! Sending is left to the caller. For each of the two calls there is a
//! function that builds the request and one that reads the outcome.

use vstd::prelude::*;
use vstd::utf8::encode_utf8;
use crate::job_status::{decode_job_status, decoded_status, status_lines, status_lines_text};
use crate::json::{render, string_object, string_object_text};
use crate::reply::{
    body_text_of, is_success, status_text, ClientError, ClientErrorView, Reply, ReplyView,
};
use crate::text::{optional_line, push_optional_line};

verus! {

/// Where the CI server is.
pub const JENKINS_URL: &'static str = "http://your-jenkins-server:8080";

/// The token the client authenticates with.
pub const API_TOKEN: &'static str = "your-api-token-here";

/// The user the client authenticates as.
pub const USERNAME: &'static str = "your-username";

/// How long a request may take, in seconds.
pub const REQUEST_TIMEOUT_SECS: u64 = 30;

/// The Base64 text of `bytes`: standard alphabet, padded with `=`.
pub uninterp spec fn base64_text(bytes: Seq<u8>) -> Seq<char>;

/// `encode` of `base64::engine::general_purpose::STANDARD`. Trusted: the text
/// depends on the bytes alone, so it is the named `base64_text` of them. The
/// call fails only where four thirds of the length overflow `usize`, which no
/// slice in memory reaches.
#[verifier::external_body]
fn base64_encode(bytes: &[u8]) -> (text: String)
    ensures
        text@ == base64_text(bytes@),
{
    base64::Engine::encode(&base64::engine::general_purpose::STANDARD, bytes)
}

/// The method of a request.
#[derive(Clone, Copy, Debug, PartialEq, Eq)]
pub enum Method {
    Get,
    Post,
}

/// A request to the server, ready to be sent: the headers in the order in
/// which they are set, and the body where there is one.
#[derive(Debug, PartialEq, Eq)]
pub struct Request {
    pub method: Method,
    pub url: String,
    pub headers: Vec<(String, String)>,
    pub body: Option<String>,
    pub timeout_secs: u64,
}

/// What a `Request` is, over character sequences.
pub struct RequestView {
    pub method: Method,
    pub url: Seq<char>,
    pub headers: Seq<(Seq<char>, Seq<char>)>,
    pub body: Option<Seq<char>>,
    pub timeout_secs: u64,
}

impl View for Request {
    type V = RequestView;

    open spec fn view(&self) -> RequestView {
        RequestView {
            method: self.method,
            url: self.url@,
            headers: self.headers.deep_view(),
            body: self.body.deep_view(),
            timeout_secs: self.timeout_secs,
        }
    }
}

/// The server and the credentials that a client works with.
#[derive(Debug, PartialEq, Eq)]
pub struct JenkinsClient {
    pub base_url: String,
    pub username: String,
    pub token: String,
}

/// What a `JenkinsClient` is, over character sequences.
pub struct JenkinsClientView {
    pub base_url: Seq<char>,
    pub username: Seq<char>,
    pub token: Seq<char>,
}

impl View for JenkinsClient {
    type V = JenkinsClientView;

    open spec fn view(&self) -> JenkinsClientView {
        JenkinsClientView {
            base_url: self.base_url@,
            username: self.username@,
            token: self.token@,
        }
    }
}

/// The value of the `Authorization` header for encoded credentials: the
/// scheme `Basic`, a space, and the credentials.
pub open spec fn basic_auth_text(encoded: Seq<char>) -> Seq<char> {
    "Basic "@ + encoded
}

/// The value of the `Authorization` header for a user and a token: the scheme
/// `Basic`, then the Base64 text of `username:token` in UTF-8.
pub open spec fn auth_header_text(username: Seq<char>, token: Seq<char>) -> Seq<char> {
    basic_auth_text(base64_text(encode_utf8(username + ":"@ + token)))
}

/// The address that triggers a build of a job, with or without parameters.
pub open spec fn trigger_url(
    base_url: Seq<char>,
    job_name: Seq<char>,
    with_parameters: bool,
) -> Seq<char> {
    base_url + "/job/"@ + job_name + if with_parameters {
        "/buildWithParameters"@
    } else {
        "/build"@
    }
}

/// The address that describes a job.
pub open spec fn status_url(base_url: Seq<char>, job_name: Seq<char>) -> Seq<char> {
    base_url + "/job/"@ + job_name + "/api/json"@
}

/// The request that triggers a build, given the value of the `Authorization`
/// header and the body: a `POST` that announces JSON, to the address for a
/// build with parameters where there is a body and for a plain build where
/// there is none.
pub open spec fn trigger_request_of(
    base_url: Seq<char>,
    job_name: Seq<char>,
    authorization: Seq<char>,
    body: Option<Seq<char>>,
) -> RequestView {
    RequestView {
        method: Method::Post,
        url: trigger_url(base_url, job_name, body is Some),
        headers: seq![
            ("Authorization"@, authorization),
            ("Content-Type"@, "application/json"@),
        ],
        body,
        timeout_secs: REQUEST_TIMEOUT_SECS,
    }
}

/// The body of the request that triggers a build: the parameters as a JSON
/// object of strings where there are any, no body where there are none.
pub open spec fn trigger_body(parameters: Seq<(Seq<char>, Seq<char>)>) -> Option<Seq<char>> {
    if parameters.len() > 0 {
        Some(string_object_text(parameters))
    } else {
        None
    }
}

/// The request by which a client triggers a build of a job with parameters.
pub open spec fn trigger_request(
    client: JenkinsClientView,
    job_name: Seq<char>,
    parameters: Seq<(Seq<char>, Seq<char>)>,
) -> RequestView {
    trigger_request_of(
        client.base_url,
        job_name,
        auth_header_text(client.username, client.token),
        trigger_body(parameters),
    )
}

/// The request that asks for the description of a job, given the value of
/// the `Authorization` header: a `GET` without a body.
pub open spec fn status_request_of(
    base_url: Seq<char>,
    job_name: Seq<char>,
    authorization: Seq<char>,
) -> RequestView {
    RequestView {
        method: Method::Get,
        url: status_url(base_url, job_name),
        headers: seq![("Authorization"@, authorization)],
        body: None,
        timeout_secs: REQUEST_TIMEOUT_SECS,
    }
}

/// The request by which a client asks for the description of a job.
pub open spec fn status_request(client: JenkinsClientView, job_name: Seq<char>) -> RequestView {
    status_request_of(
        client.base_url,
        job_name,
        auth_header_text(client.username, client.token),
    )
}

/// What came of sending a request, over sequences: a reply, or none.
pub open spec fn outcome_view(outcome: Option<Reply>) -> Option<ReplyView> {
    match outcome {
        Some(reply) => Some(reply@),
        None => None,
    }
}

/// What a call reports, over character sequences: the lines to show, or the
/// error.
pub open spec fn report_view(report: Result<Vec<String>, ClientError>) -> Result<
    Seq<Seq<char>>,
    ClientErrorView,
> {
    match report {
        Ok(lines) => Ok(lines.deep_view()),
        Err(error) => Err(error@),
    }
}

/// The error for a reply whose status is not success, with or without the
/// body of the reply.
pub open spec fn status_error(reply: ReplyView, with_body: bool) -> ClientErrorView {
    ClientErrorView::Status {
        code: reply.status,
        status: status_text(reply.status as int),
        detail: if with_body {
            Some(body_text_of(reply.body))
        } else {
            None
        },
    }
}

/// What triggering a build reports. Without a reply: a connection error. On
/// success: a line that names the job, and the queue address where the reply
/// gives one. Otherwise: the status and the body of the reply, as an error.
pub open spec fn trigger_report(job_name: Seq<char>, outcome: Option<ReplyView>) -> Result<
    Seq<Seq<char>>,
    ClientErrorView,
> {
    match outcome {
        None => Err(ClientErrorView::Connection),
        Some(reply) => if is_success(reply.status) {
            Ok(
                seq!["✅ Job '"@ + job_name + "' triggered successfully"@] + optional_line(
                    "📍 Queue URL: "@,
                    reply.location,
                ),
            )
        } else {
            Err(status_error(reply, true))
        },
    }
}

/// What asking for a job's status reports. Without a reply: a connection
/// error. On a status other than success: that status, as an error. On
/// success: the lines that show the status, or a decode error where the body
/// is missing or is not JSON.
pub open spec fn status_report(job_name: Seq<char>, outcome: Option<ReplyView>) -> Result<
    Seq<Seq<char>>,
    ClientErrorView,
> {
    match outcome {
        None => Err(ClientErrorView::Connection),
        Some(reply) => if !is_success(reply.status) {
            Err(status_error(reply, false))
        } else {
            match reply.body {
                None => Err(ClientErrorView::Decode),
                Some(body) => match decoded_status(body) {
                    None => Err(ClientErrorView::Decode),
                    Some(status) => Ok(status_lines_text(job_name, status)),
                },
            }
        },
    }
}

/// The value of the `Authorization` header for credentials that are encoded
/// already.
pub fn basic_auth_header(encoded: &str) -> (header: String)
    ensures
        header@ == basic_auth_text(encoded@),
{
    String::from_str("Basic ").concat(encoded)
}

/// The request that triggers a build of `job_name` on the server at
/// `base_url`, with `authorization` as the value of the `Authorization`
/// header and `body`, where there is one, as the parameters in JSON.
pub fn build_trigger_request(
    base_url: &str,
    job_name: &str,
    authorization: String,
    body: Option<String>,
) -> (request: Request)
    ensures
        request@ == trigger_request_of(base_url@, job_name@, authorization@, body.deep_view()),
{
    let mut url: String = String::from_str(base_url);
    url.append("/job/");
    url.append(job_name);
    if body.is_some() {
        url.append("/buildWithParameters");
    } else {
        url.append("/build");
    }
    let mut headers: Vec<(String, String)> = Vec::new();
    headers.push((String::from_str("Authorization"), authorization));
    headers.push((String::from_str("Content-Type"), String::from_str("application/json")));
    let request = Request {
        method: Method::Post,
        url,
        headers,
        body,
        timeout_secs: REQUEST_TIMEOUT_SECS,
    };
    assert(request@.headers =~= trigger_request_of(
        base_url@,
        job_name@,
        authorization@,
        body.deep_view(),
    ).headers);
    request
}

/// The request that asks for the status of `job_name` on the server at
/// `base_url`, with `authorization` as the value of the `Authorization`
/// header.
pub fn build_status_request(base_url: &str, job_name: &str, authorization: String) -> (request:
    Request)
    ensures
        request@ == status_request_of(base_url@, job_name@, authorization@),
{
    let mut url: String = String::from_str(base_url);
    url.append("/job/");
    url.append(job_name);
    url.append("/api/json");
    let mut headers: Vec<(String, String)> = Vec::new();
    headers.push((String::from_str("Authorization"), authorization));
    let request = Request {
        method: Method::Get,
        url,
        headers,
        body: None,
        timeout_secs: REQUEST_TIMEOUT_SECS,
    };
    assert(request@.headers =~= status_request_of(base_url@, job_name@, authorization@).headers);
    request
}

impl JenkinsClient {
    /// The client for the server and the credentials that are built in.
    pub fn new() -> (client: JenkinsClient)
        ensures
            client@ == (JenkinsClientView {
                base_url: JENKINS_URL@,
                username: USERNAME@,
                token: API_TOKEN@,
            }),
    {
        JenkinsClient {
            base_url: String::from_str(JENKINS_URL),
            username: String::from_str(USERNAME),
            token: String::from_str(API_TOKEN),
        }
    }

    /// The value of the `Authorization` header.
    pub fn get_auth_header(&self) -> (header: String)
        ensures
            header@ == auth_header_text(self@.username, self@.token),
    {
        let mut credentials: String = self.username.clone();
        credentials.append(":");
        credentials.append(self.token.as_str());
        let encoded: String = base64_encode(credentials.as_str().as_bytes());
        basic_auth_header(encoded.as_str())
    }

    /// The request that triggers a build of `job_name` with `parameters`.
    pub fn trigger_job_request(
        &self,
        job_name: &str,
        parameters: &Vec<(String, String)>,
    ) -> (request: Request)
        ensures
            request@ == trigger_request(self@, job_name@, parameters.deep_view()),
    {
        let body: Option<String> = if parameters.len() > 0 {
            Some(render(&string_object(parameters)))
        } else {
            None
        };
        build_trigger_request(self.base_url.as_str(), job_name, self.get_auth_header(), body)
    }

    /// What triggering a build of `job_name` came to, given what came of
    /// sending the request.
    pub fn trigger_job_result(&self, job_name: &str, outcome: &Option<Reply>) -> (report: Result<
        Vec<String>,
        ClientError,
    >)
        ensures
            report_view(report) == trigger_report(job_name@, outcome_view(*outcome)),
    {
        match outcome {
            None => Err(ClientError::Connection),
            Some(reply) => {
                if reply.is_success() {
                    let mut line: String = String::from_str("✅ Job '");
                    line.append(job_name);
                    line.append("' triggered successfully");
                    let mut lines: Vec<String> = Vec::new();
                    lines.push(line);
                    assert(lines.deep_view() =~= seq![
                        "✅ Job '"@ + job_name@ + "' triggered successfully"@,
                    ]);
                    let location: Option<String> = match reply.location() {
                        Some(address) => Some(address.clone()),
                        None => None,
                    };
                    push_optional_line(&mut lines, "📍 Queue URL: ", &location);
                    Ok(lines)
                } else {
                    Err(
                        ClientError::Status {
                            code: reply.status(),
                            status: reply.status_text(),
                            detail: Some(reply.body_text()),
                        },
                    )
                }
            },
        }
    }

    /// The request that asks for the status of `job_name`.
    pub fn get_job_status_request(&self, job_name: &str) -> (request: Request)
        ensures
            request@ == status_request(self@, job_name@),
    {
        build_status_request(self.base_url.as_str(), job_name, self.get_auth_header())
    }

    /// What asking for the status of `job_name` came to, given what came of
    /// sending the request.
    pub fn get_job_status_result(&self, job_name: &str, outcome: &Option<Reply>) -> (report: Result<
        Vec<String>,
        ClientError,
    >)
        ensures
            report_view(report) == status_report(job_name@, outcome_view(*outcome)),
    {
        match outcome {
            None => Err(ClientError::Connection),
            Some(reply) => {
                if !reply.is_success() {
                    Err(
                        ClientError::Status {
                            code: reply.status(),
                            status: reply.status_text(),
                            detail: None,
                        },
                    )
                } else {
                    match reply.body() {
                        None => Err(ClientError::Decode),
                        Some(body) => match decode_job_status(body.as_slice()) {
                            None => Err(ClientError::Decode),
                            Some(status) => Ok(status_lines(job_name, &status)),
                        },
                    }
                }
            },
        }
    }
}

} // verus!
