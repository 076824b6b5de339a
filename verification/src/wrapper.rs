//! The decode-or-default wrapper.

use crate::engine::json_is_null;
use crate::error::{DecodeError, FallbackEvent};
use std::fmt::Debug;
use std::ops::{Deref, DerefMut};
use vstd::prelude::*;

verus! {

/// Holds one value of `T`: the value that was decoded or, where decoding
/// failed, a default of `T`. `E` tells whether a fallback is reported.
#[derive(Debug)]
pub struct Lenient<T, const E: bool>(pub T);

/// A lenient optional value: null and malformed input both give `None`.
pub type Optional<T, const E: bool> = Lenient<Option<T>, E>;

/// `v` is a value that `T::default()` returns.
pub open spec fn is_default<T: Default>(v: T) -> bool {
    call_ensures(T::default, (), v)
}

/// `after` is `before` followed by one event that carries the error text
/// `text`.
pub open spec fn one_reported(
    before: Seq<FallbackEvent>,
    after: Seq<FallbackEvent>,
    text: Seq<char>,
) -> bool {
    &&& after.len() == before.len() + 1
    &&& after.drop_last() == before
    &&& after.last().error@ == text
}

/// How a wrapper and the reported events follow from a decode attempt: a
/// decoded value is kept as it is and nothing is reported; an error is
/// dropped for a default, and reported once exactly when `E` is set.
pub open spec fn recovered<T: Default, const E: bool>(
    attempt: Result<T, DecodeError>,
    out: Lenient<T, E>,
    before: Seq<FallbackEvent>,
    after: Seq<FallbackEvent>,
) -> bool {
    match attempt {
        Ok(v) => out.0 == v && after == before,
        Err(e) => {
            &&& is_default(out.0)
            &&& if E {
                one_reported(before, after, e.text())
            } else {
                after == before
            }
        },
    }
}

/// What decoding an optional makes of the attempt on a value that is not
/// null: a decoded value is present, an error stays an error.
pub open spec fn present<T>(attempt: Result<T, DecodeError>) -> Result<Option<T>, DecodeError> {
    match attempt {
        Ok(v) => Ok(Some(v)),
        Err(e) => Err(e),
    }
}

/// Decoding leniently what may be there: where there is nothing, the outcome
/// is a default and nothing is reported; a value that is there is put to the
/// decoder and the attempt settled.
pub open spec fn lenient_outcome<
    T: Default,
    F: Fn(&serde_json::Value) -> Result<T, DecodeError>,
    const E: bool,
>(
    decoder: F,
    entry: Option<serde_json::Value>,
    out: Lenient<T, E>,
    before: Seq<FallbackEvent>,
    after: Seq<FallbackEvent>,
) -> bool {
    match entry {
        None => is_default(out.0) && after == before,
        Some(m) => exists|attempt: Result<T, DecodeError>| #[trigger]
            decoder.ensures((&m,), attempt) && recovered(attempt, out, before, after),
    }
}

/// Decoding an optional leniently: where there is nothing, and where there
/// is null, the outcome is `None` and nothing is reported; any other value
/// is put to the decoder and the attempt settled as that of a present value.
pub open spec fn optional_outcome<
    T,
    F: Fn(&serde_json::Value) -> Result<T, DecodeError>,
    const E: bool,
>(
    decoder: F,
    entry: Option<serde_json::Value>,
    out: Optional<T, E>,
    before: Seq<FallbackEvent>,
    after: Seq<FallbackEvent>,
) -> bool {
    match entry {
        None => out.0 is None && after == before,
        Some(m) => if json_is_null(m) {
            out.0 is None && after == before
        } else {
            exists|attempt: Result<T, DecodeError>| #[trigger]
                decoder.ensures((&m,), attempt) && recovered(present(attempt), out, before, after)
        },
    }
}

/// `format!` with `{:?}`: the text that `Debug` prints for a value. Nothing
/// is claimed of the text.
#[verifier::external_body]
fn debug_text<T: Debug>(value: &T) -> String {
    format!("{:?}", value)
}

impl<T: Default, const E: bool> Default for Lenient<T, E> {
    /// A wrapper around a default of `T`.
    fn default() -> (r: Self)
        ensures
            is_default(r.0),
    {
        Lenient(T::default())
    }
}

impl<T, const E: bool> Deref for Lenient<T, E> {
    type Target = T;

    /// Read access to the value held.
    fn deref(&self) -> (r: &T)
        ensures
            *r == self.0,
    {
        &self.0
    }
}

impl<T, const E: bool> DerefMut for Lenient<T, E> {
    /// Write access to the value held.
    fn deref_mut(&mut self) -> (r: &mut T)
        ensures
            *r == old(self).0,
            final(self).0 == *final(r),
    {
        &mut self.0
    }
}

impl<T, const E: bool> Lenient<T, E> {
    /// Gives the value held.
    pub fn into_inner(self) -> (r: T)
        ensures
            r == self.0,
    {
        self.0
    }

    /// Settles a decode attempt: keeps a decoded value; replaces an error by
    /// a default of `T`, and pushes one event to `sink` if `E` is set.
    pub fn recover(attempt: Result<T, DecodeError>, sink: &mut Vec<FallbackEvent>) -> (r: Self) where
        T: Default + Debug,

        ensures
            recovered(attempt, r, old(sink)@, final(sink)@),
    {
        match attempt {
            Ok(v) => Lenient(v),
            Err(e) => {
                let def = T::default();
                if E {
                    let event = FallbackEvent { error: e.message(), default_text: debug_text(&def) };
                    sink.push(event);
                    assert(sink@.drop_last() == old(sink)@);
                }
                Lenient(def)
            },
        }
    }

    /// Decodes `input` with `decoder` and settles the attempt. Never fails.
    pub fn decode<F>(input: &serde_json::Value, decoder: &F, sink: &mut Vec<FallbackEvent>) -> (r:
        Result<Self, DecodeError>) where
        T: Default + Debug,
        F: Fn(&serde_json::Value) -> Result<T, DecodeError>,

        requires
            decoder.requires((input,)),
        ensures
            r matches Ok(w) && lenient_outcome(
                *decoder,
                Some(*input),
                w,
                old(sink)@,
                final(sink)@,
            ),
    {
        let attempt = decoder(input);
        assert(decoder.ensures((&Some(*input)->Some_0,), attempt));
        Ok(Lenient::recover(attempt, sink))
    }
}

/// Decodes an optional value: null is `None` and the decoder is not asked;
/// any other value is what the decoder makes of it.
pub fn decode_option<T, F>(input: &serde_json::Value, decoder: &F) -> (r: Result<
    Option<T>,
    DecodeError,
>) where F: Fn(&serde_json::Value) -> Result<T, DecodeError>
    requires
        json_is_null(*input) || decoder.requires((input,)),
    ensures
        json_is_null(*input) ==> r == Ok::<Option<T>, DecodeError>(None),
        !json_is_null(*input) ==> exists|attempt: Result<T, DecodeError>| #[trigger]
            decoder.ensures((input,), attempt) && r == present(attempt),
{
    if input.is_null() {
        Ok(None)
    } else {
        match decoder(input) {
            Ok(v) => Ok(Some(v)),
            Err(e) => Err(e),
        }
    }
}

impl<T, const E: bool> Lenient<Option<T>, E> {
    /// Decodes an optional value leniently: null gives `None` and reports
    /// nothing; a value that decodes is kept; one that does not gives `None`
    /// and is reported once exactly when `E` is set. Never fails.
    pub fn decode_optional<F>(
        input: &serde_json::Value,
        decoder: &F,
        sink: &mut Vec<FallbackEvent>,
    ) -> (r: Result<Self, DecodeError>) where
        T: Debug,
        F: Fn(&serde_json::Value) -> Result<T, DecodeError>,

        requires
            json_is_null(*input) || decoder.requires((input,)),
        ensures
            r matches Ok(w) && optional_outcome(
                *decoder,
                Some(*input),
                w,
                old(sink)@,
                final(sink)@,
            ),
    {
        let attempt = decode_option(input, decoder);
        Ok(Lenient::recover(attempt, sink))
    }

    /// Takes the value out; where there is none, gives a default of `T`.
    pub fn unwrap_or_default(self) -> (r: T) where T: Default
        ensures
            match self.0 {
                Some(v) => r == v,
                None => is_default(r),
            },
    {
        match self.0 {
            Some(v) => v,
            None => T::default(),
        }
    }
}

} // verus!
