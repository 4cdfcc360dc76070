//! Builder of a timestamp, from numbers or from text.
//!
//! Text is read by `prost_types`. What it makes of a text is not restated
//! here: it is named, as [`rfc3339_timestamp`], and the contracts speak of the
//! name.

use crate::schema::Timestamp;
use crate::{Build, Buildable, Filled, Slot, Unset};
use std::marker::PhantomData;
use vstd::prelude::*;

verus! {

/// `prost_types::TimestampError`, the error of its parser. A value of it is
/// carried from the parser to the setter and never looked into.
#[verifier::external_type_specification]
#[verifier::external_body]
pub struct ExTimestampError(prost_types::TimestampError);

/// What `prost_types` reads from a text as an RFC 3339 timestamp: the seconds
/// and the nanoseconds, or nothing where it does not take the text for one.
pub uninterp spec fn rfc3339_timestamp(text: Seq<char>) -> Option<(i64, i32)>;

/// `<prost_types::Timestamp as FromStr>::from_str`.
///
/// Trusted: the call returns without panicking on every text, its outcome
/// depends on the text alone, and it is the one that [`rfc3339_timestamp`]
/// names: `Ok` with the seconds and nanoseconds read, or `Err` where the text
/// is not taken for a timestamp.
#[verifier::external_body]
fn parse_rfc3339(text: &str) -> (r: Result<Timestamp, prost_types::TimestampError>)
    ensures
        match r {
            Ok(t) => rfc3339_timestamp(text@) == Some((t.seconds, t.nanos)),
            Err(_) => rfc3339_timestamp(text@) is None,
        },
{
    match <prost_types::Timestamp as std::str::FromStr>::from_str(text) {
        Ok(t) => Ok(Timestamp { seconds: t.seconds, nanos: t.nanos }),
        Err(e) => Err(e),
    }
}

/// Why a text was not taken for a timestamp.
#[derive(Clone, Copy, Debug, PartialEq, Eq)]
pub enum TimestampParseError {
    /// The text is not a timestamp in RFC 3339 format.
    ParseFailure,
}

/// A refused text: the reason, and the builder as it was before the call.
#[derive(Debug, PartialEq)]
pub struct TimestampRejected {
    pub error: TimestampParseError,
    pub builder: TimestampBuilder<Unset>,
}

impl Clone for TimestampRejected {
    fn clone(&self) -> (r: Self)
        ensures
            r.error == self.error,
            r.builder@ == self.builder@,
    {
        TimestampRejected { error: self.error, builder: self.builder.clone() }
    }
}

/// What a [`TimestampBuilder`] holds.
pub ghost struct TimestampDraft {
    pub timestamp: Option<Timestamp>,
}

impl TimestampDraft {
    /// The draft of a builder on which no setter has run.
    pub open spec fn empty() -> TimestampDraft {
        TimestampDraft { timestamp: None }
    }

    /// Whether every mandatory field has its value.
    pub open spec fn complete(self) -> bool {
        self.timestamp is Some
    }

    /// The record that a complete draft finalizes to.
    pub open spec fn finish(self) -> Timestamp {
        self.timestamp->0
    }
}

/// The timestamp with the seconds and nanoseconds of `parsed`.
pub open spec fn timestamp_of(parsed: (i64, i32)) -> Timestamp {
    Timestamp { seconds: parsed.0, nanos: parsed.1 }
}

/// Builder of a [`Timestamp`]. The timestamp is mandatory, and is set from
/// numbers or from text.
#[derive(Debug, PartialEq)]
pub struct TimestampBuilder<T: Slot = Unset> {
    timestamp: Option<Timestamp>,
    data: PhantomData<T>,
}

impl<T: Slot> View for TimestampBuilder<T> {
    type V = TimestampDraft;

    closed spec fn view(&self) -> TimestampDraft {
        TimestampDraft { timestamp: self.timestamp }
    }
}

impl<T: Slot> TimestampBuilder<T> {
    /// The marker reads "filled" exactly when the timestamp is held.
    pub open spec fn wf(&self) -> bool {
        T::filled() <==> self@.timestamp is Some
    }

    #[verifier::type_invariant]
    spec fn inv(self) -> bool {
        self.wf()
    }
}

impl<T: Slot> Clone for TimestampBuilder<T> {
    fn clone(&self) -> (r: Self)
        ensures
            r@ == self@,
            r.wf(),
    {
        proof {
            use_type_invariant(self);
        }
        TimestampBuilder { timestamp: self.timestamp, data: PhantomData }
    }
}

impl Default for TimestampBuilder<Unset> {
    fn default() -> (r: Self)
        ensures
            r@ == TimestampDraft::empty(),
            r.wf(),
    {
        TimestampBuilder { timestamp: None, data: PhantomData }
    }
}

impl TimestampBuilder<Unset> {
    /// The refusal of a text by this builder: the builder itself comes back.
    pub open spec fn rejected(self) -> TimestampRejected {
        TimestampRejected { error: TimestampParseError::ParseFailure, builder: self }
    }

    /// Sets the timestamp to `seconds` since the Unix epoch and `nanos`
    /// nanoseconds within that second.
    pub fn seconds_nanos(self, seconds: impl Build<i64>, nanos: impl Build<i32>) -> (r:
        TimestampBuilder<Filled>)
        ensures
            r@ == (TimestampDraft {
                timestamp: Some(Timestamp { seconds: seconds.built(), nanos: nanos.built() }),
            }),
            r.wf(),
    {
        TimestampBuilder {
            timestamp: Some(Timestamp { seconds: seconds.build(), nanos: nanos.build() }),
            data: PhantomData,
        }
    }

    /// Sets the timestamp to what was read from a text, or hands the builder
    /// back unchanged where nothing was read.
    pub fn accept(self, parsed: Option<Timestamp>) -> (r: Result<
        TimestampBuilder<Filled>,
        TimestampRejected,
    >)
        ensures
            match r {
                Ok(b) => parsed is Some && b@ == (TimestampDraft { timestamp: parsed }) && b.wf(),
                Err(e) => parsed is None && e == self.rejected(),
            },
    {
        proof {
            use_type_invariant(&self);
        }
        match parsed {
            Some(timestamp) => Ok(
                TimestampBuilder { timestamp: Some(timestamp), data: PhantomData },
            ),
            None => Err(
                TimestampRejected { error: TimestampParseError::ParseFailure, builder: self },
            ),
        }
    }

    /// Sets the timestamp from a text in RFC 3339 format, such as `1970-01-01`
    /// or `1970-01-01T00:10:05Z`. A text that is not taken for a timestamp is
    /// refused, and the builder comes back unchanged with the refusal.
    pub fn iso8601timestamp(self, timestamp: &str) -> (r: Result<
        TimestampBuilder<Filled>,
        TimestampRejected,
    >)
        ensures
            match r {
                Ok(b) => rfc3339_timestamp(timestamp@) matches Some(parsed) && b@ == (
                TimestampDraft { timestamp: Some(timestamp_of(parsed)) }) && b.wf(),
                Err(e) => rfc3339_timestamp(timestamp@) is None && e == self.rejected(),
            },
    {
        match parse_rfc3339(timestamp) {
            Ok(parsed) => self.accept(Some(parsed)),
            Err(_) => self.accept(None),
        }
    }
}

impl Buildable for Timestamp {
    type Builder = TimestampBuilder;
}

impl Build<Timestamp> for TimestampBuilder<Filled> {
    open spec fn built(self) -> Timestamp {
        self@.finish()
    }

    fn build(self) -> (r: Timestamp)
        ensures
            self@.complete() && r@ == self@.finish(),
    {
        proof {
            use_type_invariant(&self);
        }
        self.timestamp.unwrap()
    }
}

} // verus!
