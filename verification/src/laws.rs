//! What holds of lenient decoding whatever the decoder and the input are.

use crate::engine::{json_is_null, json_is_object, json_member};
use crate::error::{DecodeError, FallbackEvent};
use crate::generator::FieldModel;
use crate::policy::FieldPolicy;
use crate::shadow::{
    all_ok, failed, field_outcome, reassembled, record_outcome, shadow_outcome, walked, ShadowValue,
};
use crate::wrapper::{is_default, lenient_outcome, optional_outcome, Lenient, Optional};
use vstd::prelude::*;

verus! {

/// `input` is a well-formed value for the decoder: the decoder makes `value`
/// of it and nothing else.
pub open spec fn decodes_to<T, F: Fn(&serde_json::Value) -> Result<T, DecodeError>>(
    decoder: F,
    input: serde_json::Value,
    value: T,
) -> bool {
    forall|attempt: Result<T, DecodeError>| #[trigger]
        decoder.ensures((&input,), attempt) ==> attempt == Ok::<T, DecodeError>(value)
}

/// `input` is malformed for the decoder: the decoder makes nothing of it but
/// an error.
pub open spec fn rejects<T, F: Fn(&serde_json::Value) -> Result<T, DecodeError>>(
    decoder: F,
    input: serde_json::Value,
) -> bool {
    forall|attempt: Result<T, DecodeError>| #[trigger]
        decoder.ensures((&input,), attempt) ==> attempt is Err
}

/// `entry` is how a faithful encoder writes `value`: the entry is there, is
/// not null, and is a well-formed value that decodes to `value`.
pub open spec fn encodes<T, F: Fn(&serde_json::Value) -> Result<T, DecodeError>>(
    decoder: F,
    entry: Option<serde_json::Value>,
    value: T,
) -> bool {
    entry matches Some(m) && !json_is_null(m) && decodes_to(decoder, m, value)
}

/// `entry` is how a faithful encoder writes the shadow field `value`: what
/// the field holds is encoded, and an optional that holds nothing is left
/// out or written as null.
pub open spec fn encodes_shadow<
    T,
    F: Fn(&serde_json::Value) -> Result<T, DecodeError>,
    const E: bool,
>(decoder: F, entry: Option<serde_json::Value>, value: ShadowValue<T, E>) -> bool {
    match value {
        ShadowValue::Strict(v) => encodes(decoder, entry, v),
        ShadowValue::Lenient(w) => encodes(decoder, entry, w.0),
        ShadowValue::Optional(w) => match w.0 {
            Some(v) => encodes(decoder, entry, v),
            None => entry matches Some(m) ==> json_is_null(m),
        },
    }
}

/// A default of an optional is `None`.
pub proof fn law_default_of_optional_is_none<T>(v: Option<T>)
    requires
        is_default(v),
    ensures
        v is None,
{
}

/// Decoding a well-formed value leniently gives that value unchanged: no
/// default takes its place and nothing is reported.
pub proof fn law_well_formed_value_is_kept<
    T: Default,
    F: Fn(&serde_json::Value) -> Result<T, DecodeError>,
    const E: bool,
>(
    decoder: F,
    input: serde_json::Value,
    value: T,
    out: Lenient<T, E>,
    before: Seq<FallbackEvent>,
    after: Seq<FallbackEvent>,
)
    requires
        decodes_to(decoder, input, value),
        lenient_outcome(decoder, Some(input), out, before, after),
    ensures
        out.0 == value,
        after == before,
{
}

/// Decoding a malformed value leniently gives a default of the type. With
/// reporting on, exactly one event is added to those reported before; with
/// reporting off, none is.
pub proof fn law_malformed_value_gives_default<
    T: Default,
    F: Fn(&serde_json::Value) -> Result<T, DecodeError>,
    const E: bool,
>(
    decoder: F,
    input: serde_json::Value,
    out: Lenient<T, E>,
    before: Seq<FallbackEvent>,
    after: Seq<FallbackEvent>,
)
    requires
        rejects::<T, F>(decoder, input),
        lenient_outcome(decoder, Some(input), out, before, after),
    ensures
        is_default(out.0),
        E ==> after.len() == before.len() + 1 && after.drop_last() == before,
        !E ==> after == before,
{
}

/// Decoding an explicit null as a lenient optional gives `None` and reports
/// nothing, whatever the decoder would make of null: null is a value of the
/// optional, not a failure.
pub proof fn law_null_is_no_value<
    T,
    F: Fn(&serde_json::Value) -> Result<T, DecodeError>,
    const E: bool,
>(
    decoder: F,
    input: serde_json::Value,
    out: Optional<T, E>,
    before: Seq<FallbackEvent>,
    after: Seq<FallbackEvent>,
)
    requires
        json_is_null(input),
        optional_outcome(decoder, Some(input), out, before, after),
    ensures
        out.0 is None,
        after == before,
{
}

/// A lenient optional holds a value only where the input held one that
/// decodes: an absent entry, a null entry and a malformed entry all give
/// `None`.
pub proof fn law_optional_collapses_to_none<
    T,
    F: Fn(&serde_json::Value) -> Result<T, DecodeError>,
    const E: bool,
>(
    decoder: F,
    entry: Option<serde_json::Value>,
    out: Optional<T, E>,
    before: Seq<FallbackEvent>,
    after: Seq<FallbackEvent>,
)
    requires
        entry matches Some(m) ==> json_is_null(m) || rejects::<T, F>(decoder, m),
        optional_outcome(decoder, entry, out, before, after),
    ensures
        out.0 is None,
{
}

/// A wrapped field never fails: decoding a lenient or an optional field
/// gives a shadow value, whatever the input holds under the field's name.
pub proof fn law_wrapped_field_never_fails<
    T: Default,
    F: Fn(&serde_json::Value) -> Result<T, DecodeError>,
    const E: bool,
>(
    decoder: F,
    entry: Option<serde_json::Value>,
    field: FieldModel,
    out: Result<ShadowValue<T, E>, DecodeError>,
    before: Seq<FallbackEvent>,
    after: Seq<FallbackEvent>,
)
    requires
        field.policy.wraps(),
        field_outcome(decoder, entry, field, out, before, after),
    ensures
        out is Ok,
{
}

/// Decoding a record fails only where the input is no key-value container
/// or a strict field is absent or malformed: the failure is a misshapen
/// input, or carries the name of one of the record's strict fields.
pub proof fn law_only_shape_and_strict_fields_fail<
    T: Default,
    F: Fn(&serde_json::Value) -> Result<T, DecodeError>,
    const E: bool,
>(
    decoder: F,
    source: serde_json::Value,
    fields: Seq<FieldModel>,
    failure: DecodeError,
    before: Seq<FallbackEvent>,
    after: Seq<FallbackEvent>,
)
    requires
        shadow_outcome::<T, F, E>(
            decoder,
            source,
            fields,
            Err::<Seq<ShadowValue<T, E>>, DecodeError>(failure),
            before,
            after,
        ),
    ensures
        failure is Shape || exists|i: int|
            0 <= i < fields.len() && (#[trigger] fields[i]).policy == FieldPolicy::Strict && (
            failure matches DecodeError::RequiredField { name, .. } && name@ == fields[i].name),
{
    if json_is_object(source) {
        let (steps, trace) = choose|
            steps: Seq<Result<ShadowValue<T, E>, DecodeError>>,
            trace: Seq<Seq<FallbackEvent>>,
        |
            #[trigger] walked(decoder, source, fields, steps, trace) && steps.len() > 0
                && steps.last() == failed::<T, E>(failure);
        let k = steps.len() - 1;
        assert(steps[k] == failed::<T, E>(failure));
        assert(fields[k].policy == FieldPolicy::Strict);
    }
}

/// A record without strict fields decodes from every key-value container,
/// the empty one too: wrapped fields can always be had.
pub proof fn law_wrapped_record_always_decodes<
    T: Default,
    F: Fn(&serde_json::Value) -> Result<T, DecodeError>,
    const E: bool,
>(
    decoder: F,
    source: serde_json::Value,
    fields: Seq<FieldModel>,
    out: Result<Seq<T>, DecodeError>,
    before: Seq<FallbackEvent>,
    after: Seq<FallbackEvent>,
)
    requires
        json_is_object(source),
        forall|i: int| 0 <= i < fields.len() ==> (#[trigger] fields[i]).policy.wraps(),
        record_outcome::<T, F, E>(decoder, source, fields, out, before, after),
    ensures
        out is Ok,
{
    if let Err(failure) = out {
        law_only_shape_and_strict_fields_fail::<T, F, E>(
            decoder,
            source,
            fields,
            failure,
            before,
            after,
        );
    }
}

/// A strict field that is absent, or whose entry is malformed, fails the
/// record, wherever it stands among the fields.
pub proof fn law_failing_strict_field_fails_the_record<
    T: Default,
    F: Fn(&serde_json::Value) -> Result<T, DecodeError>,
    const E: bool,
>(
    decoder: F,
    source: serde_json::Value,
    fields: Seq<FieldModel>,
    at: int,
    out: Result<Seq<T>, DecodeError>,
    before: Seq<FallbackEvent>,
    after: Seq<FallbackEvent>,
)
    requires
        0 <= at < fields.len(),
        fields[at].policy == FieldPolicy::Strict,
        json_member(source, fields[at].name) matches Some(m) ==> rejects::<T, F>(decoder, m),
        record_outcome::<T, F, E>(decoder, source, fields, out, before, after),
    ensures
        out is Err,
{
    if let Ok(record) = out {
        let shadow = choose|shadow: Seq<ShadowValue<T, E>>|
            #[trigger] shadow_outcome(
                decoder,
                source,
                fields,
                Ok::<Seq<ShadowValue<T, E>>, DecodeError>(shadow),
                before,
                after,
            );
        if json_is_object(source) {
            let (steps, trace) = choose|
                steps: Seq<Result<ShadowValue<T, E>, DecodeError>>,
                trace: Seq<Seq<FallbackEvent>>,
            |
                #[trigger] walked(decoder, source, fields, steps, trace) && steps.len()
                    == fields.len() && steps == all_ok(shadow);
            assert(steps[at] == all_ok(shadow)[at]);
            assert(false);
        }
    }
}

/// The shadow record has one field for each field of the record, in the
/// record's order, and each is wrapped as its policy says.
pub proof fn law_shadow_follows_the_fields<
    T: Default,
    F: Fn(&serde_json::Value) -> Result<T, DecodeError>,
    const E: bool,
>(
    decoder: F,
    source: serde_json::Value,
    fields: Seq<FieldModel>,
    shadow: Seq<ShadowValue<T, E>>,
    before: Seq<FallbackEvent>,
    after: Seq<FallbackEvent>,
)
    requires
        shadow_outcome(
            decoder,
            source,
            fields,
            Ok::<Seq<ShadowValue<T, E>>, DecodeError>(shadow),
            before,
            after,
        ),
    ensures
        json_is_object(source),
        shadow.len() == fields.len(),
        forall|i: int| 0 <= i < fields.len() ==> (#[trigger] shadow[i]).policy() == fields[i].policy,
{
    let (steps, trace) = choose|
        steps: Seq<Result<ShadowValue<T, E>, DecodeError>>,
        trace: Seq<Seq<FallbackEvent>>,
    |
        #[trigger] walked(decoder, source, fields, steps, trace) && steps.len() == fields.len()
            && steps == all_ok(shadow);
    assert forall|i: int| 0 <= i < fields.len() implies (#[trigger] shadow[i]).policy()
        == fields[i].policy by {
        assert(steps[i] == all_ok(shadow)[i]);
    }
}

/// Along a walk in which no field reported anything, what was reported at
/// the end is what was reported at the start.
proof fn lemma_quiet_walk(trace: Seq<Seq<FallbackEvent>>, upto: int)
    requires
        0 <= upto < trace.len(),
        forall|i: int| 0 <= i < trace.len() - 1 ==> #[trigger] trace[i + 1] == trace[i],
    ensures
        trace[upto] == trace[0],
    decreases upto,
{
    if upto > 0 {
        lemma_quiet_walk(trace, upto - 1);
        assert(trace[(upto - 1) + 1] == trace[upto - 1]);
    }
}

/// Decoding is stable under re-encoding, shadow field for shadow field:
/// decoding the encoded form of a shadow record gives that shadow record
/// again and reports nothing. The encoded form is any key-value container
/// that holds, under each field's name, the encoded form of that shadow
/// field.
pub proof fn law_redecoding_gives_the_same_shadow<
    T: Default,
    F: Fn(&serde_json::Value) -> Result<T, DecodeError>,
    const E: bool,
>(
    decoder: F,
    encoded: serde_json::Value,
    fields: Seq<FieldModel>,
    shadow: Seq<ShadowValue<T, E>>,
    again: Result<Seq<ShadowValue<T, E>>, DecodeError>,
    before: Seq<FallbackEvent>,
    after: Seq<FallbackEvent>,
)
    requires
        json_is_object(encoded),
        shadow.len() == fields.len(),
        forall|i: int|
            0 <= i < fields.len() ==> (#[trigger] shadow[i]).policy() == fields[i].policy
                && encodes_shadow(decoder, json_member(encoded, fields[i].name), shadow[i]),
        shadow_outcome(decoder, encoded, fields, again, before, after),
    ensures
        again == Ok::<Seq<ShadowValue<T, E>>, DecodeError>(shadow),
        after == before,
{
    let (steps, trace) = choose|
        steps: Seq<Result<ShadowValue<T, E>, DecodeError>>,
        trace: Seq<Seq<FallbackEvent>>,
    |
        #[trigger] walked(decoder, encoded, fields, steps, trace) && trace.first() == before
            && trace.last() == after && match again {
            Ok(values) => steps.len() == fields.len() && steps == all_ok(values),
            Err(e) => steps.len() > 0 && steps.last() == failed::<T, E>(e),
        };
    assert forall|i: int| 0 <= i < steps.len() implies #[trigger] steps[i] == all_ok(shadow)[i]
        && trace[i + 1] == trace[i] by {
        assert(shadow[i].policy() == fields[i].policy);
        assert(encodes_shadow(decoder, json_member(encoded, fields[i].name), shadow[i]));
    }
    assert forall|i: int| 0 <= i < trace.len() - 1 implies #[trigger] trace[i + 1]
        == trace[i] by {
        assert(steps[i] == all_ok(shadow)[i]);
    }
    lemma_quiet_walk(trace, trace.len() - 1);
    match again {
        Ok(values) => {
            assert(values =~= shadow) by {
                assert forall|i: int| 0 <= i < values.len() implies values[i] == shadow[i] by {
                    assert(steps[i] == all_ok(values)[i]);
                    assert(steps[i] == all_ok(shadow)[i]);
                }
            }
        },
        Err(e) => {
            assert(steps[steps.len() - 1] == all_ok(shadow)[steps.len() - 1]);
        },
    }
}

/// Decoding is stable under re-encoding: where every field of a record was
/// well formed, so that the record holds what was decoded, decoding the
/// record's encoded form again gives the same record, field for field, and
/// reports nothing. The encoded form of `record` is any key-value container
/// that holds, under each field's name, a well-formed value that decodes to
/// that field of `record`.
pub proof fn law_redecoding_gives_the_same_record<
    T: Default,
    F: Fn(&serde_json::Value) -> Result<T, DecodeError>,
    const E: bool,
>(
    decoder: F,
    encoded: serde_json::Value,
    fields: Seq<FieldModel>,
    record: Seq<T>,
    again: Result<Seq<T>, DecodeError>,
    before: Seq<FallbackEvent>,
    after: Seq<FallbackEvent>,
)
    requires
        json_is_object(encoded),
        record.len() == fields.len(),
        forall|i: int|
            0 <= i < fields.len() ==> encodes(
                decoder,
                json_member(encoded, (#[trigger] fields[i]).name),
                record[i],
            ),
        record_outcome::<T, F, E>(decoder, encoded, fields, again, before, after),
    ensures
        again == Ok::<Seq<T>, DecodeError>(record),
        after == before,
{
    match again {
        Ok(out) => {
            let shadow = choose|shadow: Seq<ShadowValue<T, E>>|
                #[trigger] shadow_outcome(
                    decoder,
                    encoded,
                    fields,
                    Ok::<Seq<ShadowValue<T, E>>, DecodeError>(shadow),
                    before,
                    after,
                ) && reassembled(shadow, out);
            let (steps, trace) = choose|
                steps: Seq<Result<ShadowValue<T, E>, DecodeError>>,
                trace: Seq<Seq<FallbackEvent>>,
            |
                #[trigger] walked(decoder, encoded, fields, steps, trace) && trace.first()
                    == before && trace.last() == after && steps.len() == fields.len() && steps
                    == all_ok(shadow);
            assert forall|i: int| 0 <= i < fields.len() implies #[trigger] out[i] == record[i]
                && trace[i + 1] == trace[i] by {
                assert(steps[i] == all_ok(shadow)[i]);
                assert(encodes(decoder, json_member(encoded, fields[i].name), record[i]));
                assert(shadow[i].yields(out[i]));
            }
            assert forall|i: int| 0 <= i < trace.len() - 1 implies #[trigger] trace[i + 1]
                == trace[i] by {
                assert(out[i] == record[i]);
            }
            lemma_quiet_walk(trace, trace.len() - 1);
            assert(out =~= record);
        },
        Err(e) => {
            let (steps, trace) = choose|
                steps: Seq<Result<ShadowValue<T, E>, DecodeError>>,
                trace: Seq<Seq<FallbackEvent>>,
            |
                #[trigger] walked(decoder, encoded, fields, steps, trace) && steps.len() > 0
                    && steps.last() == failed::<T, E>(e);
            let k = steps.len() - 1;
            assert(steps[k] == failed::<T, E>(e));
            assert(encodes(decoder, json_member(encoded, fields[k].name), record[k]));
            assert(false);
        },
    }
}

} // verus!
