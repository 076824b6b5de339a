//! The two phases of decoding a record whose fields share one value type:
//! decode the shadow record field by field, then take each field back out.

use crate::engine::{json_is_object, json_member};
use crate::error::{DecodeError, FallbackEvent};
use crate::generator::{field_models, FieldDescriptor, FieldModel};
use crate::policy::FieldPolicy;
use crate::record::{may_ask, strict_outcome, RecordInput};
use crate::wrapper::{is_default, lenient_outcome, optional_outcome, Lenient, Optional};
use std::fmt::Debug;
use vstd::prelude::*;

verus! {

/// A field of the shadow record: the field's value, wrapped as its policy
/// says.
#[derive(Debug)]
pub enum ShadowValue<T, const E: bool> {
    /// A strict field holds its value as it is.
    Strict(T),
    /// A lenient field holds a wrapper.
    Lenient(Lenient<T, E>),
    /// An optional field holds a wrapper around an optional value.
    Optional(Optional<T, E>),
}

impl<T, const E: bool> ShadowValue<T, E> {
    /// The policy under which the field was decoded.
    pub open spec fn policy(self) -> FieldPolicy {
        match self {
            ShadowValue::Strict(_) => FieldPolicy::Strict,
            ShadowValue::Lenient(_) => FieldPolicy::Lenient,
            ShadowValue::Optional(_) => FieldPolicy::Optional,
        }
    }

    /// `out` is the record's field for this shadow field: the value itself,
    /// the wrapped value, or for an optional its value and, where it has
    /// none, a default.
    pub open spec fn yields(self, out: T) -> bool where T: Default {
        match self {
            ShadowValue::Strict(v) => out == v,
            ShadowValue::Lenient(w) => out == w.0,
            ShadowValue::Optional(w) => match w.0 {
                Some(v) => out == v,
                None => is_default(out),
            },
        }
    }

    /// Takes the record's field out of the shadow field.
    pub fn into_field(self) -> (r: T) where T: Default
        ensures
            self.yields(r),
    {
        match self {
            ShadowValue::Strict(v) => v,
            ShadowValue::Lenient(w) => w.into_inner(),
            ShadowValue::Optional(w) => w.unwrap_or_default(),
        }
    }
}

/// What decoding one field under its policy gives, and what it reports. A
/// strict field reports nothing and may fail; a wrapped field never fails.
pub open spec fn field_outcome<
    T: Default,
    F: Fn(&serde_json::Value) -> Result<T, DecodeError>,
    const E: bool,
>(
    decoder: F,
    entry: Option<serde_json::Value>,
    field: FieldModel,
    out: Result<ShadowValue<T, E>, DecodeError>,
    before: Seq<FallbackEvent>,
    after: Seq<FallbackEvent>,
) -> bool {
    match field.policy {
        FieldPolicy::Strict => {
            &&& after == before
            &&& match out {
                Ok(ShadowValue::Strict(v)) => strict_outcome(
                    decoder,
                    entry,
                    field.name,
                    Ok::<T, DecodeError>(v),
                ),
                Ok(_) => false,
                Err(e) => strict_outcome(decoder, entry, field.name, Err::<T, DecodeError>(e)),
            }
        },
        FieldPolicy::Lenient => {
            &&& out matches Ok(ShadowValue::Lenient(w))
            &&& lenient_outcome(decoder, entry, w, before, after)
        },
        FieldPolicy::Optional => {
            &&& out matches Ok(ShadowValue::Optional(w))
            &&& optional_outcome(decoder, entry, w, before, after)
        },
    }
}

/// The steps of a walk in which every field gave a shadow value.
pub open spec fn all_ok<T, const E: bool>(values: Seq<ShadowValue<T, E>>) -> Seq<
    Result<ShadowValue<T, E>, DecodeError>,
> {
    values.map_values(|v: ShadowValue<T, E>| Ok::<ShadowValue<T, E>, DecodeError>(v))
}

/// The step of a field that failed with `e`.
pub open spec fn failed<T, const E: bool>(e: DecodeError) -> Result<ShadowValue<T, E>, DecodeError> {
    Err(e)
}

/// The decoder may be asked wherever decoding the fields asks it.
pub open spec fn may_ask_each<T, F: Fn(&serde_json::Value) -> Result<T, DecodeError>>(
    decoder: F,
    source: serde_json::Value,
    fields: Seq<FieldModel>,
) -> bool {
    forall|i: int|
        0 <= i < fields.len() ==> may_ask(
            decoder,
            json_member(source, (#[trigger] fields[i]).name),
            fields[i].policy,
        )
}

/// How a record's fields were gone through, in order. `steps` holds what
/// each field that was tried gave, and `trace` what had been reported
/// before the first field and after each. Every field but the last one
/// tried succeeded: a failure ends the walk.
pub open spec fn walked<
    T: Default,
    F: Fn(&serde_json::Value) -> Result<T, DecodeError>,
    const E: bool,
>(
    decoder: F,
    source: serde_json::Value,
    fields: Seq<FieldModel>,
    steps: Seq<Result<ShadowValue<T, E>, DecodeError>>,
    trace: Seq<Seq<FallbackEvent>>,
) -> bool {
    &&& steps.len() <= fields.len()
    &&& trace.len() == steps.len() + 1
    &&& forall|i: int|
        0 <= i < steps.len() ==> field_outcome(
            decoder,
            json_member(source, fields[i].name),
            fields[i],
            #[trigger] steps[i],
            trace[i],
            trace[i + 1],
        )
    &&& forall|i: int| 0 <= i < steps.len() - 1 ==> (#[trigger] steps[i]) is Ok
}

/// What decoding the shadow record of `fields` from `source` gives. An
/// input that is no key-value container is refused and nothing is reported.
/// Otherwise the fields are gone through in order from `before` to `after`:
/// either all succeed and `out` holds one shadow value for each, in order,
/// or `out` is the failure of the first field that failed.
pub open spec fn shadow_outcome<
    T: Default,
    F: Fn(&serde_json::Value) -> Result<T, DecodeError>,
    const E: bool,
>(
    decoder: F,
    source: serde_json::Value,
    fields: Seq<FieldModel>,
    out: Result<Seq<ShadowValue<T, E>>, DecodeError>,
    before: Seq<FallbackEvent>,
    after: Seq<FallbackEvent>,
) -> bool {
    if !json_is_object(source) {
        out == Err::<Seq<ShadowValue<T, E>>, DecodeError>(DecodeError::Shape) && after == before
    } else {
        exists|steps: Seq<Result<ShadowValue<T, E>, DecodeError>>, trace: Seq<Seq<FallbackEvent>>|
            {
                &&& #[trigger] walked(decoder, source, fields, steps, trace)
                &&& trace.first() == before
                &&& trace.last() == after
                &&& match out {
                    Ok(values) => steps.len() == fields.len() && steps == all_ok(values),
                    Err(e) => steps.len() > 0 && steps.last() == failed::<T, E>(e),
                }
            }
    }
}

/// `out` holds the record's fields for the shadow record `shadow`, one for
/// one and in order.
pub open spec fn reassembled<T: Default, const E: bool>(
    shadow: Seq<ShadowValue<T, E>>,
    out: Seq<T>,
) -> bool {
    &&& out.len() == shadow.len()
    &&& forall|i: int| 0 <= i < shadow.len() ==> (#[trigger] shadow[i]).yields(out[i])
}

/// What decoding a record gives: the fields taken out of a shadow record
/// that decoding gave, or the failure that decoding the shadow record gave.
pub open spec fn record_outcome<
    T: Default,
    F: Fn(&serde_json::Value) -> Result<T, DecodeError>,
    const E: bool,
>(
    decoder: F,
    source: serde_json::Value,
    fields: Seq<FieldModel>,
    out: Result<Seq<T>, DecodeError>,
    before: Seq<FallbackEvent>,
    after: Seq<FallbackEvent>,
) -> bool {
    match out {
        Ok(record) => exists|shadow: Seq<ShadowValue<T, E>>|
            #[trigger] shadow_outcome(
                decoder,
                source,
                fields,
                Ok::<Seq<ShadowValue<T, E>>, DecodeError>(shadow),
                before,
                after,
            ) && reassembled(shadow, record),
        Err(e) => shadow_outcome::<T, F, E>(
            decoder,
            source,
            fields,
            Err::<Seq<ShadowValue<T, E>>, DecodeError>(e),
            before,
            after,
        ),
    }
}

/// Decodes one field of `record` under the field's policy.
pub fn decode_field<T, F, const E: bool>(
    record: &RecordInput<'_>,
    field: &FieldDescriptor,
    decoder: &F,
    sink: &mut Vec<FallbackEvent>,
) -> (r: Result<ShadowValue<T, E>, DecodeError>) where
    T: Default + Debug,
    F: Fn(&serde_json::Value) -> Result<T, DecodeError>,

    requires
        may_ask(*decoder, record.entry(field.name@), field.policy),
    ensures
        field_outcome(*decoder, record.entry(field.name@), field@, r, old(sink)@, final(sink)@),
{
    match field.policy {
        FieldPolicy::Strict => match record.strict(field.name.as_str(), decoder) {
            Ok(v) => Ok(ShadowValue::Strict(v)),
            Err(e) => Err(e),
        },
        FieldPolicy::Lenient => Ok(
            ShadowValue::Lenient(record.lenient(field.name.as_str(), decoder, sink)),
        ),
        FieldPolicy::Optional => Ok(
            ShadowValue::Optional(record.optional(field.name.as_str(), decoder, sink)),
        ),
    }
}

/// The first phase: decodes the shadow record of `fields` from `input`,
/// field by field and in order, and stops at the first field that fails.
pub fn decode_shadow<T, F, const E: bool>(
    input: &serde_json::Value,
    fields: &Vec<FieldDescriptor>,
    decoder: &F,
    sink: &mut Vec<FallbackEvent>,
) -> (r: Result<Vec<ShadowValue<T, E>>, DecodeError>) where
    T: Default + Debug,
    F: Fn(&serde_json::Value) -> Result<T, DecodeError>,

    requires
        may_ask_each(*decoder, *input, field_models(fields@)),
    ensures
        shadow_outcome(
            *decoder,
            *input,
            field_models(fields@),
            match r {
                Ok(values) => Ok(values@),
                Err(e) => Err(e),
            },
            old(sink)@,
            final(sink)@,
        ),
{
    let record = match RecordInput::new(input) {
        Ok(record) => record,
        Err(e) => {
            return Err(e);
        },
    };
    let ghost models = field_models(fields@);
    let ghost mut steps: Seq<Result<ShadowValue<T, E>, DecodeError>> = Seq::empty();
    let ghost mut trace: Seq<Seq<FallbackEvent>> = seq![sink@];
    let mut values: Vec<ShadowValue<T, E>> = Vec::new();
    let mut i: usize = 0;
    while i < fields.len()
        invariant
            i <= fields.len(),
            may_ask_each(*decoder, *input, models),
            json_is_object(*input),
            record.source() == *input,
            models == field_models(fields@),
            values.len() == i,
            steps.len() == i,
            walked(*decoder, *input, models, steps, trace),
            trace.first() == old(sink)@,
            trace.last() == sink@,
            steps == all_ok(values@),
        decreases fields.len() - i,
    {
        let ghost before = sink@;
        assert(models[i as int] == fields[i as int]@);
        let step = decode_field(&record, &fields[i], decoder, sink);
        proof {
            let grown = steps.push(step);
            let traced = trace.push(sink@);
            assert forall|j: int| 0 <= j < grown.len() implies field_outcome(
                *decoder,
                json_member(*input, models[j].name),
                models[j],
                #[trigger] grown[j],
                traced[j],
                traced[j + 1],
            ) by {
                if j < steps.len() {
                    assert(grown[j] == steps[j]);
                    assert(traced[j] == trace[j]);
                    assert(traced[j + 1] == trace[j + 1]);
                } else {
                    assert(traced[j] == before);
                }
            }
            assert forall|j: int| 0 <= j < grown.len() - 1 implies (#[trigger] grown[j]) is Ok by {
                assert(grown[j] == steps[j]);
            }
            steps = grown;
            trace = traced;
            assert(walked(*decoder, *input, models, steps, trace));
        }
        match step {
            Ok(value) => {
                values.push(value);
                assert(steps == all_ok(values@));
            },
            Err(e) => {
                return Err(e);
            },
        }
        i += 1;
    }
    Ok(values)
}

/// The second phase: takes the record's fields out of the shadow record,
/// one for one and in order.
pub fn reassemble<T: Default, const E: bool>(shadow: Vec<ShadowValue<T, E>>) -> (r: Vec<T>)
    ensures
        reassembled(shadow@, r@),
{
    let mut out: Vec<T> = Vec::new();
    for value in iter: shadow.into_iter()
        invariant
            iter.seq() == shadow@,
            out.len() == iter.index(),
            forall|j: int| 0 <= j < out.len() ==> (#[trigger] shadow@[j]).yields(out[j]),
    {
        out.push(value.into_field());
    }
    out
}

/// Decodes a record: the shadow record first, then the fields out of it.
pub fn decode_record<T, F, const E: bool>(
    input: &serde_json::Value,
    fields: &Vec<FieldDescriptor>,
    decoder: &F,
    sink: &mut Vec<FallbackEvent>,
) -> (r: Result<Vec<T>, DecodeError>) where
    T: Default + Debug,
    F: Fn(&serde_json::Value) -> Result<T, DecodeError>,

    requires
        may_ask_each(*decoder, *input, field_models(fields@)),
    ensures
        record_outcome::<T, F, E>(
            *decoder,
            *input,
            field_models(fields@),
            match r {
                Ok(record) => Ok(record@),
                Err(e) => Err(e),
            },
            old(sink)@,
            final(sink)@,
        ),
{
    match decode_shadow::<T, F, E>(input, fields, decoder, sink) {
        Ok(shadow) => Ok(reassemble(shadow)),
        Err(e) => Err(e),
    }
}

} // verus!
