//! Instants and identifiers: the two values only the environment can supply
//! (the current time and a fresh record identifier) and the text form of an
//! identifier.

use vstd::prelude::*;

verus! {

/// Identifier of a stored record: the 128 bits of a UUID.
pub type Id = u128;

/// An instant in UTC: whole seconds since the Unix epoch and the nanoseconds
/// past that second.
#[derive(Clone, Copy, Debug, PartialEq, Eq, Structural)]
pub struct Timestamp {
    pub secs: i64,
    pub nanos: u32,
}

impl Timestamp {
    /// The instant `secs` seconds after the epoch.
    pub fn from_secs(secs: i64) -> (t: Timestamp)
        ensures
            t.secs == secs,
            t.nanos == 0,
    {
        Timestamp { secs, nanos: 0 }
    }

    /// Whether this instant lies strictly after the start of second `second`.
    ///
    /// Any fraction of a second past `second` counts as after it.
    pub open spec fn after_second(self, second: int) -> bool {
        self.secs > second || (self.secs == second && self.nanos > 0)
    }

    /// Decides [`Timestamp::after_second`] for a second counted from the epoch.
    pub fn is_after(self, second: u64) -> (after: bool)
        ensures
            after == self.after_second(second as int),
    {
        if self.secs < 0 {
            false
        } else {
            let s: u64 = self.secs as u64;
            s > second || (s == second && self.nanos > 0)
        }
    }
}

/// The text `uuid::Uuid` writes for the identifier with these 128 bits
/// through its `Display` implementation: 32 lower-case hexadecimal digits
/// in five hyphenated groups.
pub uninterp spec fn uuid_text(id: Id) -> Seq<char>;

/// The bits of the identifier `uuid::Uuid::parse_str` reads from a text;
/// `None` when it reports an error.
pub uninterp spec fn uuid_parse(text: Seq<char>) -> Option<Id>;

/// Reads the clock through `chrono::Utc::now` and splits the instant into
/// seconds and nanoseconds with `timestamp` and `timestamp_subsec_nanos`.
/// The value is whatever the system clock says; what holds of every reading
/// is that it does not lie before the epoch, since `now` takes the time
/// elapsed since the epoch and does not return where there is none.
#[verifier::external_body]
pub(crate) fn current_time() -> (t: Timestamp)
    ensures
        t.secs >= 0,
{
    let now = chrono::Utc::now();
    Timestamp { secs: now.timestamp(), nanos: now.timestamp_subsec_nanos() }
}

/// Writes an identifier as text with `uuid::Uuid::from_u128` and the
/// `Display` implementation of `Uuid`. The text is a function of the bits,
/// named [`uuid_text`], and `Uuid::parse_str` reads the same bits back from
/// it: the hyphenated form is one of the forms it accepts.
#[verifier::external_body]
pub(crate) fn id_to_text(id: Id) -> (text: String)
    ensures
        text@ == uuid_text(id),
        uuid_parse(text@) == Some(id),
{
    uuid::Uuid::from_u128(id).to_string()
}

/// Reads an identifier from text with `uuid::Uuid::parse_str` and hands out
/// its bits (`as_u128`). The answer is a function of the text, named
/// [`uuid_parse`].
#[verifier::external_body]
pub(crate) fn id_from_text(text: &str) -> (id: Option<Id>)
    ensures
        id == uuid_parse(text@),
{
    let parsed = uuid::Uuid::parse_str(text).ok()?;
    Some(parsed.as_u128())
}

/// The text form of an identifier.
pub fn format_id(id: Id) -> (text: String)
    ensures
        text@ == uuid_text(id),
        uuid_parse(text@) == Some(id),
{
    id_to_text(id)
}

/// The identifier a text denotes, if it denotes one.
pub fn parse_id(text: &str) -> (id: Option<Id>)
    ensures
        id == uuid_parse(text@),
{
    id_from_text(text)
}

/// Draws a random identifier with `uuid::Uuid::new_v4` and hands out its bits
/// (`as_u128`). Nothing is claimed of the value: it is random.
#[verifier::external_body]
pub(crate) fn fresh_id() -> Id {
    uuid::Uuid::new_v4().as_u128()
}

} // verus!
