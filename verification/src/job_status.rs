//! What the CI server says of a job, and how it is shown.

use vstd::prelude::*;
use crate::json::{document_text, json_text, member, member_text, parse_document, render};
use crate::text::{optional_line, push_optional_line};

verus! {

/// The four things shown of a job, each as the compact JSON text of the member
/// it was read from, and each absent where the reply does not hold it.
#[derive(Debug, PartialEq, Eq)]
pub struct JobStatus {
    pub name: Option<String>,
    pub buildable: Option<String>,
    pub last_build_number: Option<String>,
    pub last_build_url: Option<String>,
}

/// What a `JobStatus` is, over character sequences.
pub struct JobStatusView {
    pub name: Option<Seq<char>>,
    pub buildable: Option<Seq<char>>,
    pub last_build_number: Option<Seq<char>>,
    pub last_build_url: Option<Seq<char>>,
}

impl View for JobStatus {
    type V = JobStatusView;

    open spec fn view(&self) -> JobStatusView {
        JobStatusView {
            name: self.name.deep_view(),
            buildable: self.buildable.deep_view(),
            last_build_number: self.last_build_number.deep_view(),
            last_build_url: self.last_build_url.deep_view(),
        }
    }
}

/// The member `key` of the member `outer` of a document.
pub open spec fn nested_member_text(
    document: Seq<char>,
    outer: Seq<char>,
    key: Seq<char>,
) -> Option<Seq<char>> {
    match member_text(document, outer) {
        Some(inner) => member_text(inner, key),
        None => None,
    }
}

/// The status that a JSON document describes: `name` and `buildable` from the
/// document itself, the number and the address of the last build from its
/// member `lastBuild`.
pub open spec fn job_status_of(document: Seq<char>) -> JobStatusView {
    JobStatusView {
        name: member_text(document, "name"@),
        buildable: member_text(document, "buildable"@),
        last_build_number: nested_member_text(document, "lastBuild"@, "number"@),
        last_build_url: nested_member_text(document, "lastBuild"@, "url"@),
    }
}

/// The status that the bytes of a reply describe, where they are JSON.
pub open spec fn decoded_status(body: Seq<u8>) -> Option<JobStatusView> {
    match document_text(body) {
        Some(document) => Some(job_status_of(document)),
        None => None,
    }
}

/// The text of the member `key` of `value`.
fn member_rendered(value: &serde_json::Value, key: &str) -> (text: Option<String>)
    ensures
        text.deep_view() == member_text(json_text(*value), key@),
{
    match member(value, key) {
        Some(inner) => Some(render(inner)),
        None => None,
    }
}

/// Reads the status of a job from the body of a reply; `None` where the body
/// is not JSON.
pub fn decode_job_status(body: &[u8]) -> (decoded: Option<JobStatus>)
    ensures
        decoded is Some <==> decoded_status(body@) is Some,
        decoded matches Some(status) ==> decoded_status(body@) == Some(status@),
{
    match parse_document(body) {
        None => None,
        Some(document) => {
            let name = member_rendered(&document, "name");
            let buildable = member_rendered(&document, "buildable");
            let (last_build_number, last_build_url) = match member(&document, "lastBuild") {
                Some(last_build) => (
                    member_rendered(last_build, "number"),
                    member_rendered(last_build, "url"),
                ),
                None => (None, None),
            };
            Some(JobStatus { name, buildable, last_build_number, last_build_url })
        },
    }
}

/// The lines that show a status: a heading that names the job, then one line
/// for each thing that is there, in a fixed order.
pub open spec fn status_lines_text(job_name: Seq<char>, status: JobStatusView) -> Seq<Seq<char>> {
    seq!["📊 Job Status for '"@ + job_name + "':"@] + optional_line("   Name: "@, status.name)
        + optional_line("   Buildable: "@, status.buildable) + optional_line(
        "   Last Build: #"@,
        status.last_build_number,
    ) + optional_line("   Last Build URL: "@, status.last_build_url)
}

/// The lines that show the status of the job `job_name`.
pub fn status_lines(job_name: &str, status: &JobStatus) -> (lines: Vec<String>)
    ensures
        lines.deep_view() == status_lines_text(job_name@, status@),
{
    let mut heading: String = String::from_str("📊 Job Status for '");
    heading.append(job_name);
    heading.append("':");
    let mut lines: Vec<String> = Vec::new();
    lines.push(heading);
    assert(lines.deep_view() =~= seq!["📊 Job Status for '"@ + job_name@ + "':"@]);
    push_optional_line(&mut lines, "   Name: ", &status.name);
    push_optional_line(&mut lines, "   Buildable: ", &status.buildable);
    push_optional_line(&mut lines, "   Last Build: #", &status.last_build_number);
    push_optional_line(&mut lines, "   Last Build URL: ", &status.last_build_url);
    lines
}

} // verus!
