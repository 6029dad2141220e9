//! Field values for a structured serializer.
//!
//! The formatters feed a generic structured-output serializer: a present
//! magnitude is written as its formatted string, an absent one as the
//! serializer's explicit "no value" marker. Which of the two is written is
//! the only decision involved, and it is made here; the caller that owns
//! the serializer performs the write and passes any error of the
//! serializer through unchanged.

use vstd::prelude::*;
use crate::formatting::{format_number, spec_format_number};

verus! {

/// What a serializer should be handed for one field.
pub enum FieldValue {
    /// Write this text as a string value.
    Text(String),
    /// Write the explicit "no value" marker.
    Absent,
}

/// Decides the serialized form of an optional count: a present count
/// becomes exactly the text `format_number` gives it, an absent one
/// becomes the absent marker, and no text at all is built for it.
pub fn optional_number_value(opt_number: Option<u32>) -> (r: FieldValue)
    ensures
        (match r {
            FieldValue::Text(s) => opt_number matches Some(n) && s@ == spec_format_number(n as nat),
            FieldValue::Absent => opt_number is None,
        }),
{
    match opt_number {
        Some(n) => FieldValue::Text(format_number(n)),
        None => FieldValue::Absent,
    }
}

} // verus!
