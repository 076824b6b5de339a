//! Lenient decoding: decode each field of a record on its own and fall back
//! to a default where a field does not decode, rather than fail the record.
//!
//! - [`wrapper`]: `Lenient<T, E>`, the decode-or-default wrapper, and
//!   `Optional<T, E>`, the wrapper around an optional value.
//! - [`record`]: the fields of a key-value input, each decoded as strict,
//!   lenient or optional.
//! - [`shadow`]: a record decoded in two phases, the shadow record first and
//!   the record's own fields out of it.
//! - [`policy`] and [`generator`]: from a record's declared fields and their
//!   markers to the text of its shadow record and decode entry point.
//! - [`engine`]: the `serde_json` values that are decoded and the `serde`
//!   decoders of scalars.
//! - [`error`]: the failures of a decode call and the fallback event.
//! - [`laws`]: what holds of all this for every decoder and input.

pub mod engine;
pub mod error;
pub mod generator;
pub mod laws;
pub mod policy;
pub mod record;
pub mod shadow;
pub mod wrapper;

pub use engine::{decode_string, decode_u32, decode_u8, decode_usize};
pub use error::{DecodeError, FallbackEvent, FieldFault};
pub use generator::{derive_lenient, FieldDeclaration, FieldDescriptor, RecordDefinition};
pub use policy::{classify, FieldPolicy};
pub use record::RecordInput;
pub use shadow::{decode_field, decode_record, decode_shadow, reassemble, ShadowValue};
pub use wrapper::{decode_option, Lenient, Optional};
