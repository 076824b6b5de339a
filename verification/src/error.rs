//! Decode failures and the fallback event.

use vstd::prelude::*;

verus! {

/// Why a strict field failed.
#[derive(Debug, PartialEq, Eq)]
pub enum FieldFault {
    /// The input holds no entry under the field's name.
    Absent,
    /// The entry is there and did not decode.
    Malformed(Box<DecodeError>),
}

/// A failure that ends a decode call.
#[derive(Debug, PartialEq, Eq)]
pub enum DecodeError {
    /// The input is not a key-value container.
    Shape,
    /// A strict field is absent or did not decode.
    RequiredField { name: String, cause: FieldFault },
    /// The engine rejected a value; `message` is the engine's own text.
    Rejected { message: String },
}

/// What a wrapper reports when it falls back to the default.
#[derive(Debug, Clone, PartialEq, Eq)]
pub struct FallbackEvent {
    /// The text of the error that was discarded.
    pub error: String,
    /// The default that took the value's place, as `Debug` prints it.
    pub default_text: String,
}

impl DecodeError {
    /// The error as text. A field's failure is prefixed with the field's name,
    /// so a nested failure reads from the outside in.
    pub open spec fn text(self) -> Seq<char>
        decreases self,
    {
        match self {
            DecodeError::Shape => "invalid type: expected a key-value container"@,
            DecodeError::RequiredField { name, cause: FieldFault::Absent } => {
                "missing field `"@ + name@ + "`"@
            },
            DecodeError::RequiredField { name, cause: FieldFault::Malformed(inner) } => {
                "field `"@ + name@ + "`: "@ + inner.text()
            },
            DecodeError::Rejected { message } => message@,
        }
    }

    /// Renders the error as text.
    pub fn message(&self) -> (r: String)
        ensures
            r@ == self.text(),
        decreases self,
    {
        match self {
            DecodeError::Shape => "invalid type: expected a key-value container".to_owned(),
            DecodeError::RequiredField { name, cause: FieldFault::Absent } => {
                let mut out = "missing field `".to_owned();
                out.append(name.as_str());
                out.append("`");
                out
            },
            DecodeError::RequiredField { name, cause: FieldFault::Malformed(inner) } => {
                let mut out = "field `".to_owned();
                out.append(name.as_str());
                out.append("`: ");
                let rest = inner.message();
                out.append(rest.as_str());
                out
            },
            DecodeError::Rejected { message } => message.clone(),
        }
    }
}

} // verus!
