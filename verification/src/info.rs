//! The service's description of itself.

use vstd::prelude::*;
use crate::environment::{branch_of, get_env_with_default, version_of, Environment};
use crate::json::quote;
use crate::literal::{lemma_string_literal_reads_back, read_string_literal, string_literal_text};
use crate::timestamp::{instant_text, Timestamp};

verus! {

/// What `/api/info` reports.
#[derive(Debug, PartialEq, Eq)]
pub struct AppInfo {
    pub message: String,
    pub branch: String,
    pub timestamp: Timestamp,
    pub version: String,
}

/// What an `AppInfo` is, over character sequences; the instant as seconds and
/// nanoseconds since the Unix epoch.
pub struct AppInfoView {
    pub message: Seq<char>,
    pub branch: Seq<char>,
    pub timestamp: (int, int),
    pub version: Seq<char>,
}

impl View for AppInfo {
    type V = AppInfoView;

    open spec fn view(&self) -> AppInfoView {
        AppInfoView {
            message: self.message@,
            branch: self.branch@,
            timestamp: self.timestamp@,
            version: self.version@,
        }
    }
}

impl AppInfoView {
    /// The description at the instant `now`, in an environment.
    pub open spec fn current(vars: Seq<(Seq<char>, Seq<char>)>, now: (int, int)) -> AppInfoView {
        AppInfoView {
            message: "Hello from Jenkins Demo App"@,
            branch: branch_of(vars),
            timestamp: now,
            version: version_of(vars),
        }
    }
}

/// The JSON object with the four members of a description, in the order of
/// the fields, given the JSON text of each value.
pub open spec fn info_object(
    message: Seq<char>,
    branch: Seq<char>,
    timestamp: Seq<char>,
    version: Seq<char>,
) -> Seq<char> {
    "{\"message\":"@ + message + ",\"branch\":"@ + branch + ",\"timestamp\":"@ + timestamp
        + ",\"version\":"@ + version + "}"@
}

/// The JSON object for a description: each value as a string literal, the
/// instant in RFC 3339.
pub open spec fn info_json(info: AppInfoView) -> Seq<char> {
    info_object(
        string_literal_text(info.message),
        string_literal_text(info.branch),
        string_literal_text(instant_text(info.timestamp)),
        string_literal_text(info.version),
    )
}

/// Writes the JSON object with the four members of a description, given the
/// JSON text of each value.
pub fn write_info_object(message: &str, branch: &str, timestamp: &str, version: &str) -> (text:
    String)
    ensures
        text@ == info_object(message@, branch@, timestamp@, version@),
{
    let mut text: String = String::from_str("{\"message\":");
    text.append(message);
    text.append(",\"branch\":");
    text.append(branch);
    text.append(",\"timestamp\":");
    text.append(timestamp);
    text.append(",\"version\":");
    text.append(version);
    text.append("}");
    text
}

/// What follows `opening` in `text`, where `text` starts with it.
pub open spec fn after(text: Seq<char>, opening: Seq<char>) -> Option<Seq<char>> {
    if opening.is_prefix_of(text) {
        Some(text.skip(opening.len() as int))
    } else {
        None
    }
}

/// Reads one member of the object from the front of `text`: what stands
/// before its value, then the value as a string literal. Gives the string and
/// what follows the literal.
pub open spec fn read_member(text: Seq<char>, opening: Seq<char>) -> Option<
    (Seq<char>, Seq<char>),
> {
    match after(text, opening) {
        Some(rest) => read_string_literal(rest),
        None => None,
    }
}

/// What a JSON object of a description says, as it was written: the message,
/// the branch, the instant in RFC 3339, and the version.
pub struct InfoFields {
    pub message: Seq<char>,
    pub branch: Seq<char>,
    pub timestamp: Seq<char>,
    pub version: Seq<char>,
}

/// Reads the JSON object of a description in the form in which `info_json`
/// writes it: the four members in the order of the fields, each value a
/// string literal, nothing between them and nothing behind.
pub open spec fn read_info_json(text: Seq<char>) -> Option<InfoFields> {
    match read_member(text, "{\"message\":"@) {
        Some((message, rest)) => match read_member(rest, ",\"branch\":"@) {
            Some((branch, rest)) => match read_member(rest, ",\"timestamp\":"@) {
                Some((timestamp, rest)) => match read_member(rest, ",\"version\":"@) {
                    Some((version, rest)) => if rest == "}"@ {
                        Some(InfoFields { message, branch, timestamp, version })
                    } else {
                        None
                    },
                    None => None,
                },
                None => None,
            },
            None => None,
        },
        None => None,
    }
}

/// A member is read back as the string it was written from.
proof fn lemma_member_reads_back(opening: Seq<char>, value: Seq<char>, rest: Seq<char>)
    ensures
        read_member(opening + string_literal_text(value) + rest, opening) == Some((value, rest)),
{
    let text = opening + string_literal_text(value) + rest;
    assert(opening.is_prefix_of(text));
    assert(text.skip(opening.len() as int) =~= string_literal_text(value) + rest);
    lemma_string_literal_reads_back(value, rest);
}

/// The JSON object of a description reads back field by field: the message,
/// the branch and the version as they are, and the instant as its RFC 3339
/// text, in which it was written.
pub proof fn lemma_info_json_reads_back(info: AppInfoView)
    ensures
        read_info_json(info_json(info)) == Some(
            InfoFields {
                message: info.message,
                branch: info.branch,
                timestamp: instant_text(info.timestamp),
                version: info.version,
            },
        ),
{
    let message = string_literal_text(info.message);
    let branch = string_literal_text(info.branch);
    let timestamp = string_literal_text(instant_text(info.timestamp));
    let version = string_literal_text(info.version);
    let rest3 = "}"@;
    let rest2 = ",\"version\":"@ + version + rest3;
    let rest1 = ",\"timestamp\":"@ + timestamp + rest2;
    let rest0 = ",\"branch\":"@ + branch + rest1;
    assert(info_json(info) =~= "{\"message\":"@ + message + rest0);
    lemma_member_reads_back("{\"message\":"@, info.message, rest0);
    lemma_member_reads_back(",\"branch\":"@, info.branch, rest1);
    lemma_member_reads_back(",\"timestamp\":"@, instant_text(info.timestamp), rest2);
    lemma_member_reads_back(",\"version\":"@, info.version, rest3);
}

impl AppInfo {
    /// The description as a JSON object.
    pub fn to_json(&self) -> (text: String)
        ensures
            text@ == info_json(self@),
    {
        let stamp: String = self.timestamp.to_rfc3339();
        write_info_object(
            quote(self.message.as_str()).as_str(),
            quote(self.branch.as_str()).as_str(),
            quote(stamp.as_str()).as_str(),
            quote(self.version.as_str()).as_str(),
        )
    }
}

/// The description of the service at `now`: the branch and the version come
/// from the environment, with their defaults.
pub fn current_info(env: &Environment, now: Timestamp) -> (info: AppInfo)
    ensures
        info@ == AppInfoView::current(env@, now@),
{
    AppInfo {
        message: String::from_str("Hello from Jenkins Demo App"),
        branch: get_env_with_default(env, "branch", "unknown"),
        timestamp: now,
        version: get_env_with_default(env, "VERSION", "1.0.0"),
    }
}

} // verus!
