//! The service's metrics: the figures, and their exposition.

use vstd::prelude::*;
use crate::environment::{branch_of, get_env_with_default, version_of, Environment};
use crate::exposition::{
    are_families, families_lines, families_text, family_lines, help_line, is_exposition,
    is_family, is_label_name, is_metric_name, is_sample, lemma_exposition_lines,
    sample_line, type_line, write_help_line, write_sample_line, write_type_line, Family, Sample,
};
use crate::text::{
    decimal, decimal_text, is_decimal, join_lines, lemma_decimal_text_is_decimal, lines_of,
};

verus! {

/// The figures behind `/metrics`.
#[derive(Debug, PartialEq, Eq)]
pub struct MetricsInfo {
    pub uptime_seconds: u64,
    pub requests_total: u64,
    pub version: String,
    pub branch: String,
}

/// What a `MetricsInfo` is, over character sequences.
pub struct MetricsInfoView {
    pub uptime_seconds: u64,
    pub requests_total: u64,
    pub version: Seq<char>,
    pub branch: Seq<char>,
}

impl View for MetricsInfo {
    type V = MetricsInfoView;

    open spec fn view(&self) -> MetricsInfoView {
        MetricsInfoView {
            uptime_seconds: self.uptime_seconds,
            requests_total: self.requests_total,
            version: self.version@,
            branch: self.branch@,
        }
    }
}

impl MetricsInfoView {
    /// The figures the service reports `epoch_secs` seconds after the Unix
    /// epoch: that number as the uptime, and no request counted.
    pub open spec fn current(
        vars: Seq<(Seq<char>, Seq<char>)>,
        epoch_secs: u64,
    ) -> MetricsInfoView {
        MetricsInfoView {
            uptime_seconds: epoch_secs,
            requests_total: 0,
            version: version_of(vars),
            branch: branch_of(vars),
        }
    }
}

/// A metric with one sample.
pub open spec fn single(
    name: Seq<char>,
    help: Seq<char>,
    kind: Seq<char>,
    labels: Seq<(Seq<char>, Seq<char>)>,
    value: Seq<char>,
) -> Family {
    Family { name, help, kind, samples: seq![Sample { labels, value }] }
}

/// The three metrics of the service, each with its one sample: a gauge of
/// value 1 that carries version and branch as labels, escaped where the
/// format asks for it, the uptime counter, and the request counter.
pub open spec fn metric_families(m: MetricsInfoView) -> Seq<Family> {
    seq![
        single(
            "jenkins_demo_info"@,
            "Application information"@,
            "gauge"@,
            seq![("version"@, m.version), ("branch"@, m.branch)],
            "1"@,
        ),
        single(
            "jenkins_demo_uptime_seconds"@,
            "Uptime in seconds"@,
            "counter"@,
            Seq::empty(),
            decimal_text(m.uptime_seconds as nat),
        ),
        single(
            "jenkins_demo_requests_total"@,
            "Total number of requests"@,
            "counter"@,
            Seq::empty(),
            decimal_text(m.requests_total as nat),
        ),
    ]
}

/// The nine lines of the exposition: for each of the three metrics its help,
/// its kind and its sample.
pub open spec fn metrics_lines(m: MetricsInfoView) -> Seq<Seq<char>> {
    seq![
        help_line("jenkins_demo_info"@, "Application information"@),
        type_line("jenkins_demo_info"@, "gauge"@),
        sample_line(
            "jenkins_demo_info"@,
            seq![("version"@, m.version), ("branch"@, m.branch)],
            "1"@,
        ),
        help_line("jenkins_demo_uptime_seconds"@, "Uptime in seconds"@),
        type_line("jenkins_demo_uptime_seconds"@, "counter"@),
        sample_line(
            "jenkins_demo_uptime_seconds"@,
            Seq::empty(),
            decimal_text(m.uptime_seconds as nat),
        ),
        help_line("jenkins_demo_requests_total"@, "Total number of requests"@),
        type_line("jenkins_demo_requests_total"@, "counter"@),
        sample_line(
            "jenkins_demo_requests_total"@,
            Seq::empty(),
            decimal_text(m.requests_total as nat),
        ),
    ]
}

/// The exposition of the figures.
pub open spec fn exposition_text(m: MetricsInfoView) -> Seq<char> {
    families_text(metric_families(m))
}

/// The lines of the three metrics are the nine lines.
proof fn lemma_metric_families_lines(m: MetricsInfoView)
    ensures
        families_lines(metric_families(m)) == metrics_lines(m),
{
    let families = metric_families(m);
    let two = families.drop_last();
    let one = two.drop_last();
    assert(one.drop_last() =~= Seq::<Family>::empty());
    assert(families_lines(one.drop_last()) =~= Seq::<Seq<char>>::empty());
    assert(families_lines(one) =~= family_lines(families[0]));
    assert(families_lines(two) =~= family_lines(families[0]) + family_lines(families[1]));
    assert(families_lines(families) =~= metrics_lines(m));
}

impl MetricsInfo {
    /// The figures in the text exposition format.
    pub fn exposition(&self) -> (text: String)
        ensures
            text@ == exposition_text(self@),
    {
        let mut labels: Vec<(String, String)> = Vec::new();
        labels.push((String::from_str("version"), self.version.clone()));
        labels.push((String::from_str("branch"), self.branch.clone()));
        assert(labels.deep_view() =~= seq![("version"@, self.version@), ("branch"@, self.branch@)]);
        let bare: Vec<(String, String)> = Vec::new();
        assert(bare.deep_view() =~= Seq::empty());
        let uptime: String = decimal(self.uptime_seconds);
        let requests: String = decimal(self.requests_total);
        let mut lines: Vec<String> = Vec::new();
        lines.push(write_help_line("jenkins_demo_info", "Application information"));
        lines.push(write_type_line("jenkins_demo_info", "gauge"));
        lines.push(write_sample_line("jenkins_demo_info", &labels, "1"));
        lines.push(write_help_line("jenkins_demo_uptime_seconds", "Uptime in seconds"));
        lines.push(write_type_line("jenkins_demo_uptime_seconds", "counter"));
        lines.push(write_sample_line("jenkins_demo_uptime_seconds", &bare, uptime.as_str()));
        lines.push(write_help_line("jenkins_demo_requests_total", "Total number of requests"));
        lines.push(write_type_line("jenkins_demo_requests_total", "counter"));
        lines.push(write_sample_line("jenkins_demo_requests_total", &bare, requests.as_str()));
        proof {
            assert(lines.deep_view() =~= metrics_lines(self@));
            lemma_metric_families_lines(self@);
        }
        join_lines(&lines)
    }
}

/// The seconds since the Unix epoch that a reading of the clock stands for:
/// the reading, or zero where the clock is set before the epoch and gives
/// none.
pub fn epoch_secs_or_zero(reading: Option<u64>) -> (secs: u64)
    ensures
        secs == match reading {
            Some(s) => s,
            None => 0,
        },
{
    match reading {
        Some(s) => s,
        None => 0,
    }
}

/// The figures the service reports `epoch_secs` seconds after the Unix epoch.
pub fn current_metrics(env: &Environment, epoch_secs: u64) -> (metrics: MetricsInfo)
    ensures
        metrics@ == MetricsInfoView::current(env@, epoch_secs),
{
    MetricsInfo {
        uptime_seconds: epoch_secs,
        requests_total: 0,
        version: get_env_with_default(env, "VERSION", "1.0.0"),
        branch: get_env_with_default(env, "branch", "unknown"),
    }
}

/// What the three metrics are written from can be written: the names are
/// names and differ, and the helps stay on one line.
proof fn lemma_fixed_parts()
    ensures
        is_metric_name("jenkins_demo_info"@),
        is_metric_name("jenkins_demo_uptime_seconds"@),
        is_metric_name("jenkins_demo_requests_total"@),
        "jenkins_demo_info"@ != "jenkins_demo_uptime_seconds"@,
        "jenkins_demo_info"@ != "jenkins_demo_requests_total"@,
        "jenkins_demo_uptime_seconds"@ != "jenkins_demo_requests_total"@,
        !"Application information"@.contains('\n'),
        !"Uptime in seconds"@.contains('\n'),
        !"Total number of requests"@.contains('\n'),
        is_label_name("version"@),
        is_label_name("branch"@),
        "version"@ != "branch"@,
        is_decimal("1"@),
{
    assert(is_metric_name("jenkins_demo_info"@)) by {
        reveal_strlit("jenkins_demo_info");
    }
    assert(is_metric_name("jenkins_demo_uptime_seconds"@)) by {
        reveal_strlit("jenkins_demo_uptime_seconds");
    }
    assert(is_metric_name("jenkins_demo_requests_total"@)) by {
        reveal_strlit("jenkins_demo_requests_total");
    }
    assert("jenkins_demo_info"@.len() != "jenkins_demo_uptime_seconds"@.len()) by {
        reveal_strlit("jenkins_demo_info");
        reveal_strlit("jenkins_demo_uptime_seconds");
    }
    assert("jenkins_demo_info"@.len() != "jenkins_demo_requests_total"@.len()) by {
        reveal_strlit("jenkins_demo_info");
        reveal_strlit("jenkins_demo_requests_total");
    }
    assert("jenkins_demo_uptime_seconds"@[13] != "jenkins_demo_requests_total"@[13]) by {
        reveal_strlit("jenkins_demo_uptime_seconds");
        reveal_strlit("jenkins_demo_requests_total");
    }
    assert(!"Application information"@.contains('\n')) by {
        reveal_strlit("Application information");
    }
    assert(!"Uptime in seconds"@.contains('\n')) by {
        reveal_strlit("Uptime in seconds");
    }
    assert(!"Total number of requests"@.contains('\n')) by {
        reveal_strlit("Total number of requests");
    }
    assert(is_label_name("version"@) && is_label_name("branch"@) && "version"@.len()
        != "branch"@.len()) by {
        reveal_strlit("version");
        reveal_strlit("branch");
    }
    assert(is_decimal("1"@)) by {
        reveal_strlit("1");
    }
}

/// A metric with one sample can be written where its parts can.
proof fn lemma_single_is_family(
    name: Seq<char>,
    help: Seq<char>,
    kind: Seq<char>,
    labels: Seq<(Seq<char>, Seq<char>)>,
    value: Seq<char>,
)
    requires
        is_metric_name(name),
        !help.contains('\n'),
        kind == "counter"@ || kind == "gauge"@,
        forall|i: int| 0 <= i < labels.len() ==> is_label_name(#[trigger] labels[i].0),
        forall|i: int, j: int| 0 <= i < j < labels.len() ==> labels[i].0 != labels[j].0,
        is_decimal(value),
    ensures
        is_family(single(name, help, kind, labels, value)),
{
    let family = single(name, help, kind, labels, value);
    assert(is_sample(family.samples[0]));
}

/// The three metrics of the service can be written, whatever version and
/// branch hold.
proof fn lemma_metric_families_are_families(m: MetricsInfoView)
    ensures
        are_families(metric_families(m)),
{
    lemma_fixed_parts();
    lemma_decimal_text_is_decimal(m.uptime_seconds as nat);
    lemma_decimal_text_is_decimal(m.requests_total as nat);
    let labels = seq![("version"@, m.version), ("branch"@, m.branch)];
    lemma_single_is_family(
        "jenkins_demo_info"@,
        "Application information"@,
        "gauge"@,
        labels,
        "1"@,
    );
    lemma_single_is_family(
        "jenkins_demo_uptime_seconds"@,
        "Uptime in seconds"@,
        "counter"@,
        Seq::empty(),
        decimal_text(m.uptime_seconds as nat),
    );
    lemma_single_is_family(
        "jenkins_demo_requests_total"@,
        "Total number of requests"@,
        "counter"@,
        Seq::empty(),
        decimal_text(m.requests_total as nat),
    );
    let families = metric_families(m);
    assert(is_family(families[0]));
    assert(is_family(families[1]));
    assert(is_family(families[2]));
}

/// Of the nine lines, the two before each sample start with `#`, and the
/// samples do not.
proof fn lemma_comments_and_samples(m: MetricsInfoView)
    ensures
        forall|i: int|
            0 <= i < 9 ==> ((#[trigger] metrics_lines(m)[i])[0] == '#' <==> i % 3 != 2),
{
    reveal_strlit("# HELP ");
    reveal_strlit("# TYPE ");
    reveal_strlit("jenkins_demo_info");
    reveal_strlit("jenkins_demo_uptime_seconds");
    reveal_strlit("jenkins_demo_requests_total");
    let lines = metrics_lines(m);
    assert(lines[0][0] == '#' && lines[1][0] == '#');
    assert(lines[2][0] == 'j');
    assert(lines[3][0] == '#' && lines[4][0] == '#');
    assert(lines[5][0] == 'j');
    assert(lines[6][0] == '#' && lines[7][0] == '#');
    assert(lines[8][0] == 'j');
}

/// The sample of the request counter where no request was counted.
proof fn lemma_no_request_counted(m: MetricsInfoView)
    requires
        m.requests_total == 0,
    ensures
        metrics_lines(m)[8] == "jenkins_demo_requests_total 0"@,
{
    reveal_strlit("jenkins_demo_requests_total");
    reveal_strlit("jenkins_demo_requests_total 0");
    reveal_strlit(" ");
    assert(metrics_lines(m)[8] =~= "jenkins_demo_requests_total 0"@);
}

/// The exposition of the figures is well formed, whatever version and
/// branch hold. It falls into the nine lines: every third line is the one
/// sample of its metric, the lines before it are the comments on that metric,
/// and the sample of the request counter reads
/// `jenkins_demo_requests_total 0` where no request was counted.
pub proof fn lemma_metrics_exposition(m: MetricsInfoView)
    ensures
        are_families(metric_families(m)),
        is_exposition(exposition_text(m)),
        lines_of(exposition_text(m)) == metrics_lines(m),
        forall|i: int|
            0 <= i < 9 ==> ((#[trigger] metrics_lines(m)[i])[0] == '#' <==> i % 3 != 2),
        m.requests_total == 0 ==> metrics_lines(m)[8] == "jenkins_demo_requests_total 0"@,
{
    lemma_metric_families_are_families(m);
    lemma_exposition_lines(metric_families(m));
    lemma_metric_families_lines(m);
    lemma_comments_and_samples(m);
    if m.requests_total == 0 {
        lemma_no_request_counted(m);
    }
}

} // verus!
