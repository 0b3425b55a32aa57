//! Instants in UTC, held as plain integers, and their text form.

use vstd::prelude::*;

verus! {

/// An instant in UTC: whole seconds since 1970-01-01T00:00:00Z and the
/// nanoseconds into that second.
///
/// A leap second is the second numbered 59 of a minute with
/// `nanos >= 1_000_000_000`.
#[derive(Clone, Copy, Debug, PartialEq, Eq, Structural)]
pub struct Timestamp {
    pub secs: i64,
    pub nanos: u32,
}

/// The RFC 3339 text that chrono writes for the instant `secs`, `nanos`,
/// or `None` where chrono has no date and time for these two numbers.
pub uninterp spec fn rfc3339_text(secs: i64, nanos: u32) -> Option<Seq<char>>;

/// The instant that chrono reads from `text` as seconds and nanoseconds, or
/// `None` where it rejects the text.
pub uninterp spec fn parsed_instant(text: Seq<char>) -> Option<(i64, u32)>;

/// Reads the system clock.
///
/// Calls `chrono::Utc::now` and takes the result apart with
/// `DateTime::timestamp` and `DateTime::timestamp_subsec_nanos`. The clock
/// decides the value; all that is claimed is that chrono can build the
/// same date and time again from the two numbers, which its documentation
/// guarantees of every `DateTime<Utc>`.
#[verifier::external_body]
fn utc_now() -> (t: Timestamp)
    ensures
        t.representable(),
{
    let now = chrono::Utc::now();
    Timestamp { secs: now.timestamp(), nanos: now.timestamp_subsec_nanos() }
}

/// Writes an instant as RFC 3339 text.
///
/// Builds the date and time with `chrono::DateTime::from_timestamp`, which
/// gives `None` for numbers out of its range, and writes it with
/// `DateTime::to_rfc3339`. The text is a function of the two numbers alone
/// and is named, not spelled out.
#[verifier::external_body]
fn format_rfc3339(t: &Timestamp) -> (r: Option<String>)
    ensures
        r is Some <==> rfc3339_text(t.secs, t.nanos) is Some,
        r matches Some(s) ==> rfc3339_text(t.secs, t.nanos) == Some(s@),
{
    match chrono::DateTime::<chrono::Utc>::from_timestamp(t.secs, t.nanos) {
        Some(at) => Some(at.to_rfc3339()),
        None => None,
    }
}

/// Reads an instant from text.
///
/// Calls `str::parse` for `chrono::DateTime<Utc>`, which accepts a relaxed
/// form of RFC 3339 and converts to UTC. The outcome is a function of the
/// text alone and is named, not spelled out.
#[verifier::external_body]
fn parse_rfc3339(text: &str) -> (r: Option<Timestamp>)
    ensures
        r is Some <==> parsed_instant(text@) is Some,
        r matches Some(t) ==> parsed_instant(text@) == Some((t.secs, t.nanos)),
{
    match text.parse::<chrono::DateTime<chrono::Utc>>() {
        Ok(at) => Some(Timestamp { secs: at.timestamp(), nanos: at.timestamp_subsec_nanos() }),
        Err(_) => None,
    }
}

impl Timestamp {
    /// Whether chrono has a date and time for this instant, so that it has
    /// a text form.
    pub open spec fn representable(self) -> bool {
        rfc3339_text(self.secs, self.nanos) is Some
    }

    /// The text form of a representable instant.
    pub open spec fn text(self) -> Seq<char>
        recommends
            self.representable(),
    {
        rfc3339_text(self.secs, self.nanos)->Some_0
    }

    /// The instant that `text` stands for, if it stands for one.
    pub open spec fn parsed(text: Seq<char>) -> Option<Timestamp> {
        match parsed_instant(text) {
            Some((secs, nanos)) => Some(Timestamp { secs, nanos }),
            None => None,
        }
    }

    /// What a stored text is read as: its instant where it has one, else
    /// `fallback`.
    pub open spec fn lenient(text: Seq<char>, fallback: Timestamp) -> Timestamp {
        match Timestamp::parsed(text) {
            Some(at) => at,
            None => fallback,
        }
    }

    /// `self` is not earlier than `other`.
    pub open spec fn is_at_or_after(self, other: Timestamp) -> bool {
        self.secs > other.secs || (self.secs == other.secs && self.nanos >= other.nanos)
    }

    /// The current time of the system clock.
    pub fn now() -> (t: Timestamp)
        ensures
            t.representable(),
    {
        utc_now()
    }

    /// Whether `self` is not earlier than `other`.
    pub fn at_or_after(&self, other: &Timestamp) -> (b: bool)
        ensures
            b == self.is_at_or_after(*other),
    {
        self.secs > other.secs || (self.secs == other.secs && self.nanos >= other.nanos)
    }

    /// The RFC 3339 text of this instant, or `None` where it has none.
    pub fn to_rfc3339(&self) -> (r: Option<String>)
        ensures
            r is Some <==> self.representable(),
            r matches Some(s) ==> s@ == self.text(),
    {
        format_rfc3339(self)
    }

    /// Reads an instant from RFC 3339 text; `None` where the text is not
    /// one.
    pub fn parse(text: &str) -> (r: Option<Timestamp>)
        ensures
            r == Timestamp::parsed(text@),
    {
        parse_rfc3339(text)
    }

    /// Reads a stored instant leniently: text that cannot be read counts as
    /// the time at which it is read. The clock is asked only then.
    pub fn parse_or_now(text: &str) -> (t: Timestamp)
        ensures
            t == Timestamp::lenient(text@, t),
    {
        match parse_rfc3339(text) {
            Some(at) => at,
            None => utc_now(),
        }
    }

    /// Reads a stored instant leniently: text that cannot be read counts as
    /// `fallback`.
    pub fn parse_or(text: &str, fallback: Timestamp) -> (t: Timestamp)
        ensures
            t == Timestamp::lenient(text@, fallback),
    {
        match parse_rfc3339(text) {
            Some(at) => at,
            None => fallback,
        }
    }
}

/// Ordering instants by `is_at_or_after` is reflexive, transitive and total.
pub proof fn lemma_at_or_after_is_total_order(a: Timestamp, b: Timestamp, c: Timestamp)
    ensures
        a.is_at_or_after(a),
        a.is_at_or_after(b) || b.is_at_or_after(a),
        a.is_at_or_after(b) && b.is_at_or_after(c) ==> a.is_at_or_after(c),
        a.is_at_or_after(b) && b.is_at_or_after(a) ==> a == b,
{
}

} // verus!
