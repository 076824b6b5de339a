//! The record code generator: from a record's declared fields to the text of
//! a shadow record and of the decode entry point that reads it.

use crate::policy::{classify, marker_names, policy_for, FieldPolicy};
use vstd::prelude::*;

verus! {

/// A field as the record declares it.
#[derive(Debug, Clone, PartialEq, Eq)]
pub struct FieldDeclaration {
    /// The field's name.
    pub name: String,
    /// The field's type, as written.
    pub declared_type: String,
    /// The names of the markers on the field, in order.
    pub markers: Vec<String>,
}

/// A record type with named fields.
#[derive(Debug, Clone, PartialEq, Eq)]
pub struct RecordDefinition {
    /// The record's name.
    pub name: String,
    /// The record's fields, in declaration order.
    pub fields: Vec<FieldDeclaration>,
}

/// A field with its policy settled.
#[derive(Debug, Clone, PartialEq, Eq)]
pub struct FieldDescriptor {
    /// The field's name.
    pub name: String,
    /// The field's type, as written.
    pub declared_type: String,
    /// How the field is decoded.
    pub policy: FieldPolicy,
}

/// A field descriptor as plain values.
pub struct FieldModel {
    /// The field's name.
    pub name: Seq<char>,
    /// The field's type, as written.
    pub declared_type: Seq<char>,
    /// How the field is decoded.
    pub policy: FieldPolicy,
}

impl View for FieldDescriptor {
    type V = FieldModel;

    /// The descriptor with its texts as sequences of characters.
    open spec fn view(&self) -> FieldModel {
        FieldModel { name: self.name@, declared_type: self.declared_type@, policy: self.policy }
    }
}

impl FieldDeclaration {
    /// The descriptor that this declaration stands for: same name, same
    /// type, the policy that its markers select.
    pub open spec fn described(self) -> FieldModel {
        FieldModel {
            name: self.name@,
            declared_type: self.declared_type@,
            policy: policy_for(marker_names(self.markers@)),
        }
    }
}

/// The descriptors of a list of declarations, one for one and in order.
pub open spec fn described_fields(fields: Seq<FieldDeclaration>) -> Seq<FieldModel> {
    fields.map_values(|f: FieldDeclaration| f.described())
}

/// The models of a list of descriptors.
pub open spec fn field_models(fields: Seq<FieldDescriptor>) -> Seq<FieldModel> {
    fields.map_values(|f: FieldDescriptor| f@)
}

/// The type of a field in the shadow record.
pub open spec fn shadow_type_text(field: FieldModel) -> Seq<char> {
    match field.policy {
        FieldPolicy::Strict => field.declared_type,
        FieldPolicy::Lenient => "::lenient::Lenient<"@ + field.declared_type + ">"@,
        FieldPolicy::Optional => "::lenient::Optional<"@ + field.declared_type + ">"@,
    }
}

/// A field of the shadow record: the field's own name, its shadow type, and
/// before them the use-default-if-missing marking where the field is wrapped.
pub open spec fn shadow_field_text(field: FieldModel) -> Seq<char> {
    let marking = if field.policy.wraps() {
        "#[serde(default)] "@
    } else {
        Seq::<char>::empty()
    };
    marking + field.name + ": "@ + shadow_type_text(field)
}

/// How a field of the record is taken from the shadow record `inner`.
pub open spec fn reassembly_text(field: FieldModel) -> Seq<char> {
    let taken = field.name + ": inner."@ + field.name;
    match field.policy {
        FieldPolicy::Strict => taken,
        FieldPolicy::Lenient => taken + ".0"@,
        FieldPolicy::Optional => taken + ".0.unwrap_or_default()"@,
    }
}

/// The fields of the shadow record, each followed by a comma, in order.
pub open spec fn shadow_fields_text(fields: Seq<FieldModel>) -> Seq<char>
    decreases fields.len(),
{
    if fields.len() == 0 {
        Seq::<char>::empty()
    } else {
        shadow_fields_text(fields.drop_last()) + shadow_field_text(fields.last()) + ", "@
    }
}

/// The fields of the reassembled record, each followed by a comma, in order.
pub open spec fn reassembly_fields_text(fields: Seq<FieldModel>) -> Seq<char>
    decreases fields.len(),
{
    if fields.len() == 0 {
        Seq::<char>::empty()
    } else {
        reassembly_fields_text(fields.drop_last()) + reassembly_text(fields.last()) + ", "@
    }
}

/// The name of the shadow record of the record `name`.
pub open spec fn shadow_name_text(name: Seq<char>) -> Seq<char> {
    name + "Internal"@
}

/// The declaration of the shadow record.
pub open spec fn shadow_record_text(name: Seq<char>, fields: Seq<FieldModel>) -> Seq<char> {
    "#[derive(::serde::Deserialize)] struct "@ + shadow_name_text(name) + " { "@
        + shadow_fields_text(fields) + "}"@
}

/// The decode entry point of the record: decode the shadow record, then
/// take each field from it.
pub open spec fn entry_point_text(name: Seq<char>, fields: Seq<FieldModel>) -> Seq<char> {
    "impl<'de> ::serde::Deserialize<'de> for "@ + name
        + " { fn deserialize<D>(de: D) -> Result<Self, D::Error> "@
        + "where D: ::serde::Deserializer<'de>, { let inner = "@ + shadow_name_text(name)
        + "::deserialize(de)?; Ok(Self { "@ + reassembly_fields_text(fields) + "}) } }"@
}

/// All that is generated for a record: the shadow record, then the entry
/// point.
pub open spec fn generated_text(name: Seq<char>, fields: Seq<FieldModel>) -> Seq<char> {
    shadow_record_text(name, fields) + " "@ + entry_point_text(name, fields)
}

/// Settles the policy of one declared field. Name and type are kept.
pub fn describe(field: &FieldDeclaration) -> (r: FieldDescriptor)
    ensures
        r@ == field.described(),
{
    FieldDescriptor {
        name: field.name.clone(),
        declared_type: field.declared_type.clone(),
        policy: classify(&field.markers),
    }
}

/// Settles the policy of each declared field, in one pass. The descriptors
/// stand in the order of the declarations, one for each.
pub fn describe_fields(fields: &Vec<FieldDeclaration>) -> (r: Vec<FieldDescriptor>)
    ensures
        field_models(r@) == described_fields(fields@),
{
    let mut out: Vec<FieldDescriptor> = Vec::new();
    let mut i: usize = 0;
    while i < fields.len()
        invariant
            i <= fields.len(),
            out.len() == i,
            forall|j: int| 0 <= j < i ==> (#[trigger] out[j])@ == fields[j].described(),
        decreases fields.len() - i,
    {
        out.push(describe(&fields[i]));
        i += 1;
    }
    assert(field_models(out@) =~= described_fields(fields@));
    out
}

/// Writes the type of a field in the shadow record.
pub fn shadow_type(field: &FieldDescriptor) -> (r: String)
    ensures
        r@ == shadow_type_text(field@),
{
    match field.policy {
        FieldPolicy::Strict => field.declared_type.clone(),
        FieldPolicy::Lenient => {
            let mut out = "::lenient::Lenient<".to_owned();
            out.append(field.declared_type.as_str());
            out.append(">");
            out
        },
        FieldPolicy::Optional => {
            let mut out = "::lenient::Optional<".to_owned();
            out.append(field.declared_type.as_str());
            out.append(">");
            out
        },
    }
}

/// Writes a field of the shadow record.
pub fn shadow_field(field: &FieldDescriptor) -> (r: String)
    ensures
        r@ == shadow_field_text(field@),
{
    let mut out = if field.policy.is_wrapped() {
        "#[serde(default)] ".to_owned()
    } else {
        String::new()
    };
    out.append(field.name.as_str());
    out.append(": ");
    let ty = shadow_type(field);
    out.append(ty.as_str());
    out
}

/// Writes how a field of the record is taken from the shadow record.
pub fn reassembly(field: &FieldDescriptor) -> (r: String)
    ensures
        r@ == reassembly_text(field@),
{
    let mut out = field.name.clone();
    out.append(": inner.");
    out.append(field.name.as_str());
    match field.policy {
        FieldPolicy::Strict => {},
        FieldPolicy::Lenient => {
            out.append(".0");
        },
        FieldPolicy::Optional => {
            out.append(".0.unwrap_or_default()");
        },
    }
    out
}

/// Writes the fields of the shadow record, in order.
fn shadow_fields(fields: &Vec<FieldDescriptor>) -> (r: String)
    ensures
        r@ == shadow_fields_text(field_models(fields@)),
{
    let ghost models = field_models(fields@);
    let mut out = String::new();
    let mut i: usize = 0;
    while i < fields.len()
        invariant
            i <= fields.len(),
            models == field_models(fields@),
            out@ == shadow_fields_text(models.take(i as int)),
        decreases fields.len() - i,
    {
        assert(models.take(i + 1).drop_last() == models.take(i as int));
        assert(models.take(i + 1).last() == fields[i as int]@);
        let piece = shadow_field(&fields[i]);
        out.append(piece.as_str());
        out.append(", ");
        i += 1;
    }
    assert(models.take(fields.len() as int) == models);
    out
}

/// Writes the fields of the reassembled record, in order.
fn reassembly_fields(fields: &Vec<FieldDescriptor>) -> (r: String)
    ensures
        r@ == reassembly_fields_text(field_models(fields@)),
{
    let ghost models = field_models(fields@);
    let mut out = String::new();
    let mut i: usize = 0;
    while i < fields.len()
        invariant
            i <= fields.len(),
            models == field_models(fields@),
            out@ == reassembly_fields_text(models.take(i as int)),
        decreases fields.len() - i,
    {
        assert(models.take(i + 1).drop_last() == models.take(i as int));
        assert(models.take(i + 1).last() == fields[i as int]@);
        let piece = reassembly(&fields[i]);
        out.append(piece.as_str());
        out.append(", ");
        i += 1;
    }
    assert(models.take(fields.len() as int) == models);
    out
}

/// Writes the name of the shadow record of the record `name`.
pub fn shadow_name(name: &str) -> (r: String)
    ensures
        r@ == shadow_name_text(name@),
{
    let mut out = name.to_owned();
    out.append("Internal");
    out
}

/// Generates, for a record with named fields, the text of its shadow record
/// and of its decode entry point. Each field keeps its name and its place;
/// its markers alone decide how it is wrapped and how it is taken back.
pub fn derive_lenient(input: &RecordDefinition) -> (r: String)
    ensures
        r@ == generated_text(input.name@, described_fields(input.fields@)),
{
    let fields = describe_fields(&input.fields);
    let inner_name = shadow_name(input.name.as_str());

    let mut out = "#[derive(::serde::Deserialize)] struct ".to_owned();
    out.append(inner_name.as_str());
    out.append(" { ");
    let inner_fields = shadow_fields(&fields);
    out.append(inner_fields.as_str());
    out.append("}");
    assert(out@ == shadow_record_text(input.name@, described_fields(input.fields@)));

    let mut entry = "impl<'de> ::serde::Deserialize<'de> for ".to_owned();
    entry.append(input.name.as_str());
    entry.append(" { fn deserialize<D>(de: D) -> Result<Self, D::Error> ");
    entry.append("where D: ::serde::Deserializer<'de>, { let inner = ");
    entry.append(inner_name.as_str());
    entry.append("::deserialize(de)?; Ok(Self { ");
    let from_fields = reassembly_fields(&fields);
    entry.append(from_fields.as_str());
    entry.append("}) } }");
    assert(entry@ == entry_point_text(input.name@, described_fields(input.fields@)));

    out.append(" ");
    out.append(entry.as_str());
    out
}

} // verus!
