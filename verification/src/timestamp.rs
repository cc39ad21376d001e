//! Instants on the UTC time line, written as RFC 3339 by way of `chrono`.

use vstd::prelude::*;

verus! {

/// The RFC 3339 text, in UTC with the suffix `Z`, of the instant `secs`
/// seconds and `nanos` nanoseconds after the Unix epoch, with as many
/// fractional digits (none, three, six or nine) as the instant needs; `None`
/// where the calendar cannot hold the instant.
pub uninterp spec fn rfc3339_text(secs: int, nanos: int) -> Option<Seq<char>>;

/// `chrono::DateTime::from_timestamp`, then `to_rfc3339_opts` with
/// `SecondsFormat::AutoSi` and `Z`. Trusted: both depend on the two numbers
/// alone, so the outcome is the named `rfc3339_text` of them; `None` is what
/// `from_timestamp` answers for an instant out of its range.
#[verifier::external_body]
fn format_rfc3339(secs: i64, nanos: u32) -> (text: Option<String>)
    ensures
        match text {
            Some(t) => rfc3339_text(secs as int, nanos as int) == Some(t@),
            None => rfc3339_text(secs as int, nanos as int) is None,
        },
{
    chrono::DateTime::from_timestamp(secs, nanos).map(
        |t| t.to_rfc3339_opts(chrono::SecondsFormat::AutoSi, true),
    )
}

/// An instant that the calendar can hold, together with its RFC 3339 text.
#[derive(Debug, PartialEq, Eq)]
pub struct Timestamp {
    secs: i64,
    nanos: u32,
    text: String,
}

impl View for Timestamp {
    type V = (int, int);

    closed spec fn view(&self) -> (int, int) {
        (self.secs as int, self.nanos as int)
    }
}

/// Whether `(secs, nanos)` is an instant that has an RFC 3339 text.
pub open spec fn representable(instant: (int, int)) -> bool {
    rfc3339_text(instant.0, instant.1) is Some
}

/// The RFC 3339 text of a representable instant.
pub open spec fn instant_text(instant: (int, int)) -> Seq<char> {
    rfc3339_text(instant.0, instant.1).unwrap()
}

impl Clone for Timestamp {
    fn clone(&self) -> (copy: Timestamp)
        ensures
            copy@ == self@,
    {
        proof {
            use_type_invariant(self);
        }
        Timestamp { secs: self.secs, nanos: self.nanos, text: self.text.clone() }
    }
}

impl Timestamp {
    /// The calendar holds the instant, and `text` is its RFC 3339 text.
    #[verifier::type_invariant]
    closed spec fn text_is_current(&self) -> bool {
        rfc3339_text(self.secs as int, self.nanos as int) == Some(self.text@)
    }

    /// The instant `secs` seconds and `nanos` nanoseconds after the Unix
    /// epoch, where the calendar can hold it.
    pub fn new(secs: i64, nanos: u32) -> (made: Option<Timestamp>)
        ensures
            made is Some <==> representable((secs as int, nanos as int)),
            made matches Some(t) ==> t@ == (secs as int, nanos as int),
    {
        match format_rfc3339(secs, nanos) {
            Some(text) => Some(Timestamp { secs, nanos, text }),
            None => None,
        }
    }

    /// Whole seconds since the Unix epoch.
    pub fn secs(&self) -> (secs: i64)
        ensures
            secs == self@.0,
    {
        self.secs
    }

    /// Nanoseconds past the whole second.
    pub fn nanos(&self) -> (nanos: u32)
        ensures
            nanos == self@.1,
    {
        self.nanos
    }

    /// The instant in RFC 3339.
    pub fn to_rfc3339(&self) -> (text: String)
        ensures
            representable(self@),
            text@ == instant_text(self@),
    {
        proof {
            use_type_invariant(self);
        }
        self.text.clone()
    }
}

} // verus!
