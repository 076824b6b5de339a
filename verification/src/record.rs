//! Decoding the fields of a record, each under its own policy.

use crate::engine::{json_is_null, json_is_object, json_member, member};
use crate::error::{DecodeError, FallbackEvent, FieldFault};
use crate::policy::FieldPolicy;
use crate::wrapper::{lenient_outcome, optional_outcome, Lenient, Optional};
use std::fmt::Debug;
use vstd::prelude::*;

verus! {

/// An input that is known to be a key-value container. Only such an input
/// has fields to decode.
pub struct RecordInput<'a> {
    value: &'a serde_json::Value,
}

/// The decoder may be asked wherever a field of this policy asks it: on an
/// entry that is there, but for the null entry of an optional field.
pub open spec fn may_ask<T, F: Fn(&serde_json::Value) -> Result<T, DecodeError>>(
    decoder: F,
    entry: Option<serde_json::Value>,
    policy: FieldPolicy,
) -> bool {
    entry matches Some(m) ==> (policy == FieldPolicy::Optional && json_is_null(m))
        || decoder.requires((&m,))
}

/// `out` says that the field `name` is absent.
pub open spec fn missing<T>(name: Seq<char>, out: Result<T, DecodeError>) -> bool {
    &&& out matches Err(DecodeError::RequiredField { name: n, cause: FieldFault::Absent })
    &&& n@ == name
}

/// What a strict field makes of the attempt on its entry: the decoded value,
/// or the failure under the field's name.
pub open spec fn required<T>(
    name: Seq<char>,
    attempt: Result<T, DecodeError>,
    out: Result<T, DecodeError>,
) -> bool {
    match attempt {
        Ok(v) => out == Ok::<T, DecodeError>(v),
        Err(e) => {
            &&& out matches Err(
                DecodeError::RequiredField { name: n, cause: FieldFault::Malformed(inner) },
            )
            &&& n@ == name
            &&& *inner == e
        },
    }
}

/// A strict field: an absent entry is a failure; an entry that is there
/// gives what the decoder makes of it, a failure under the field's name.
pub open spec fn strict_outcome<T, F: Fn(&serde_json::Value) -> Result<T, DecodeError>>(
    decoder: F,
    entry: Option<serde_json::Value>,
    name: Seq<char>,
    out: Result<T, DecodeError>,
) -> bool {
    match entry {
        None => missing(name, out),
        Some(m) => exists|attempt: Result<T, DecodeError>| #[trigger]
            decoder.ensures((&m,), attempt) && required(name, attempt, out),
    }
}

impl<'a> RecordInput<'a> {
    /// The value held is a key-value container.
    #[verifier::type_invariant]
    spec fn holds_record(self) -> bool {
        json_is_object(*self.value)
    }

    /// The input that the fields are read from.
    pub closed spec fn source(self) -> serde_json::Value {
        *self.value
    }

    /// The entry under `name`, if the input has one.
    pub open spec fn entry(self, name: Seq<char>) -> Option<serde_json::Value> {
        json_member(self.source(), name)
    }

    /// Accepts `input` as a record if it is a key-value container, and
    /// refuses it as misshapen otherwise.
    pub fn new(input: &'a serde_json::Value) -> (r: Result<RecordInput<'a>, DecodeError>)
        ensures
            json_is_object(*input) ==> (r matches Ok(record) && record.source() == *input),
            !json_is_object(*input) ==> r == Err::<RecordInput<'a>, DecodeError>(DecodeError::Shape),
    {
        if input.is_object() {
            Ok(RecordInput { value: input })
        } else {
            Err(DecodeError::Shape)
        }
    }

    /// The input itself, which is a key-value container.
    pub fn value(&self) -> (r: &'a serde_json::Value)
        ensures
            *r == self.source(),
            json_is_object(*r),
    {
        proof {
            use_type_invariant(self);
        }
        self.value
    }

    /// Decodes a strict field: its entry must be there and decode.
    pub fn strict<T, F>(&self, name: &str, decoder: &F) -> (r: Result<T, DecodeError>) where
        F: Fn(&serde_json::Value) -> Result<T, DecodeError>,

        requires
            may_ask(*decoder, self.entry(name@), FieldPolicy::Strict),
        ensures
            strict_outcome(*decoder, self.entry(name@), name@, r),
    {
        match member(self.value, name) {
            None => Err(
                DecodeError::RequiredField { name: name.to_owned(), cause: FieldFault::Absent },
            ),
            Some(m) => {
                let attempt = decoder(m);
                assert(decoder.ensures((&self.entry(name@)->Some_0,), attempt));
                match attempt {
                    Ok(v) => Ok(v),
                    Err(e) => Err(
                        DecodeError::RequiredField {
                            name: name.to_owned(),
                            cause: FieldFault::Malformed(Box::new(e)),
                        },
                    ),
                }
            },
        }
    }

    /// Decodes a lenient field. Never fails.
    pub fn lenient<T, F, const E: bool>(
        &self,
        name: &str,
        decoder: &F,
        sink: &mut Vec<FallbackEvent>,
    ) -> (r: Lenient<T, E>) where
        T: Default + Debug,
        F: Fn(&serde_json::Value) -> Result<T, DecodeError>,

        requires
            may_ask(*decoder, self.entry(name@), FieldPolicy::Lenient),
        ensures
            lenient_outcome(*decoder, self.entry(name@), r, old(sink)@, final(sink)@),
    {
        match member(self.value, name) {
            None => Lenient(T::default()),
            Some(m) => {
                let attempt = decoder(m);
                assert(decoder.ensures((&self.entry(name@)->Some_0,), attempt));
                Lenient::recover(attempt, sink)
            },
        }
    }

    /// Decodes an optional field. Never fails.
    pub fn optional<T, F, const E: bool>(
        &self,
        name: &str,
        decoder: &F,
        sink: &mut Vec<FallbackEvent>,
    ) -> (r: Optional<T, E>) where
        T: Debug,
        F: Fn(&serde_json::Value) -> Result<T, DecodeError>,

        requires
            may_ask(*decoder, self.entry(name@), FieldPolicy::Optional),
        ensures
            optional_outcome(*decoder, self.entry(name@), r, old(sink)@, final(sink)@),
    {
        match member(self.value, name) {
            None => Lenient(None),
            Some(m) => {
                if m.is_null() {
                    Lenient(None)
                } else {
                    let attempt = decoder(m);
                    assert(decoder.ensures((&self.entry(name@)->Some_0,), attempt));
                    let lifted = match attempt {
                        Ok(v) => Ok(Some(v)),
                        Err(e) => Err(e),
                    };
                    Lenient::recover(lifted, sink)
                }
            },
        }
    }
}

} // verus!
