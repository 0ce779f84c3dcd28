//! Points in time and recording identifiers.
//!
//! A `Timestamp` is a UTC instant as whole seconds since the Unix epoch plus
//! nanoseconds.  Reading the clock, formatting an instant and drawing a fresh
//! identifier are done by `chrono` and `uuid`; the functions here state what
//! the library relies on of them.
use vstd::prelude::*;

verus! {

/// The latest second that `chrono` can represent (the end of year 262142).
pub const MAX_TIMESTAMP_SECS: i64 = 8_210_266_876_799i64;

/// The earliest second that `chrono` can represent (the start of year
/// -262143).
pub const MIN_TIMESTAMP_SECS: i64 = -8_334_601_228_800i64;

/// A UTC instant: seconds since 1970-01-01T00:00:00Z and the nanoseconds
/// within that second.
#[derive(Debug, Clone, Copy, PartialEq, Eq, Structural)]
pub struct Timestamp {
    pub secs: i64,
    pub nanos: u32,
}

/// What `chrono`'s `DateTime::<Utc>::to_rfc3339` writes for the instant
/// (`secs`, `nanos`).
pub uninterp spec fn rfc3339_text(secs: i64, nanos: u32) -> Seq<char>;

/// What `chrono` writes for the instant (`secs`, `nanos`) with the format
/// `%Y-%m-%d %H:%M`.
pub uninterp spec fn minute_text(secs: i64, nanos: u32) -> Seq<char>;

impl Timestamp {
    /// An instant that `chrono` can represent, with no leap-second
    /// nanoseconds.
    pub open spec fn wf(self) -> bool {
        &&& MIN_TIMESTAMP_SECS <= self.secs <= MAX_TIMESTAMP_SECS
        &&& self.nanos < 1_000_000_000
    }

    /// The RFC 3339 text of this instant.
    pub open spec fn rfc3339(self) -> Seq<char> {
        rfc3339_text(self.secs, self.nanos)
    }

    /// The `YYYY-MM-DD HH:MM` text of this instant.
    pub open spec fn minute(self) -> Seq<char> {
        minute_text(self.secs, self.nanos)
    }

    /// The instant (`secs`, `nanos`), when it is in range.
    pub fn new(secs: i64, nanos: u32) -> (t: Option<Timestamp>)
        ensures
            t is Some <==> (Timestamp { secs, nanos }).wf(),
            t matches Some(t) ==> t.secs == secs && t.nanos == nanos,
    {
        if MIN_TIMESTAMP_SECS <= secs && secs <= MAX_TIMESTAMP_SECS && nanos < 1_000_000_000 {
            Some(Timestamp { secs, nanos })
        } else {
            None
        }
    }

    /// The current time.
    pub fn now() -> (t: Timestamp)
        ensures
            t.wf(),
            t.secs >= 0,
    {
        let (secs, nanos) = utc_now();
        Timestamp { secs, nanos }
    }

    /// The RFC 3339 text of this instant, as stored in the recordings table.
    pub fn to_rfc3339(&self) -> (s: String)
        requires
            self.wf(),
        ensures
            s@ == self.rfc3339(),
    {
        format_rfc3339(self.secs, self.nanos)
    }

    /// The `YYYY-MM-DD HH:MM` text of this instant, used in default titles.
    pub fn to_minute_text(&self) -> (s: String)
        requires
            self.wf(),
        ensures
            s@ == self.minute(),
    {
        format_minute(self.secs, self.nanos)
    }
}

/// `chrono::Utc::now()`, as seconds and nanoseconds.  `Utc::now` builds its
/// value with `DateTime::from_timestamp(secs, subsec_nanos).unwrap()` from the
/// system clock's time since the epoch, so the seconds are not negative and
/// not past `chrono`'s last representable second, and the nanoseconds are
/// below one second.  (`Utc::now` panics when the system clock is set before
/// 1970; nothing is said of that case.)
#[verifier::external_body]
fn utc_now() -> (r: (i64, u32))
    ensures
        0 <= r.0 <= MAX_TIMESTAMP_SECS,
        r.1 < 1_000_000_000,
{
    let now = chrono::Utc::now();
    (now.timestamp(), now.timestamp_subsec_nanos())
}

/// `chrono::DateTime::<Utc>::to_rfc3339` of the instant (`secs`, `nanos`);
/// the text is named, not stated.  `DateTime::from_timestamp` gives `Some`
/// for every instant in the accepted range.
#[verifier::external_body]
fn format_rfc3339(secs: i64, nanos: u32) -> (s: String)
    requires
        (Timestamp { secs, nanos }).wf(),
    ensures
        s@ == rfc3339_text(secs, nanos),
{
    match chrono::DateTime::from_timestamp(secs, nanos) {
        Some(dt) => dt.to_rfc3339(),
        None => String::new(),
    }
}

/// `chrono`'s `format("%Y-%m-%d %H:%M")` of the instant (`secs`, `nanos`);
/// the text is named, not stated.
#[verifier::external_body]
fn format_minute(secs: i64, nanos: u32) -> (s: String)
    requires
        (Timestamp { secs, nanos }).wf(),
    ensures
        s@ == minute_text(secs, nanos),
{
    match chrono::DateTime::from_timestamp(secs, nanos) {
        Some(dt) => dt.format("%Y-%m-%d %H:%M").to_string(),
        None => String::new(),
    }
}

/// Whether `s` is the RFC 3339 text of some instant that `chrono` can
/// represent.
pub open spec fn is_time_text(s: Seq<char>) -> bool {
    exists|t: Timestamp| t.wf() && #[trigger] t.rfc3339() == s
}

/// Whether `c` is a lowercase hexadecimal digit.
pub open spec fn is_lower_hex(c: char) -> bool {
    ('0' <= c <= '9') || ('a' <= c <= 'f')
}

/// The hyphenated lowercase text of a version-4 UUID:
/// `xxxxxxxx-xxxx-4xxx-xxxx-xxxxxxxxxxxx`.
pub open spec fn is_uuid_v4_text(s: Seq<char>) -> bool {
    &&& s.len() == 36
    &&& forall|i: int|
        0 <= i < 36 ==> if i == 8 || i == 13 || i == 18 || i == 23 {
            s[i] == '-'
        } else {
            is_lower_hex(#[trigger] s[i])
        }
    &&& s[14] == '4'
}

/// `uuid::Uuid::new_v4().to_string()`: a random identifier.  Its `Display`
/// writes the hyphenated lowercase form, and the version digit of a v4 UUID
/// is `4`; which identifier comes out is random and not stated.  (`new_v4`
/// panics when the operating system gives no random bytes.)
#[verifier::external_body]
pub(crate) fn new_uuid_v4() -> (s: String)
    ensures
        is_uuid_v4_text(s@),
{
    uuid::Uuid::new_v4().to_string()
}

} // verus!
