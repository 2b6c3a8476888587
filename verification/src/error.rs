//! The ways in which a font operation can fail.

use vstd::prelude::*;

use crate::family::{EnumFamily, EnumFamilyView};

verus! {

/// Why a font operation failed.
#[derive(Debug, PartialEq, Eq)]
pub enum FontError {
    /// The name has no mapping in the family that was asked. Carries the
    /// family and the offending name.
    NotFound { family: EnumFamily, name: String },
    /// The value belongs to another enumeration than the operation expects.
    WrongEnumerationFamily { expected: EnumFamily, actual: EnumFamily },
    /// A numeric code from the document model is outside the valid set of
    /// the family. The document model and this library no longer agree on
    /// the codes: a defect, not a condition to recover from.
    IntegrityViolation { family: EnumFamily, code: u16 },
}

/// What a [`FontError`] is, with text as a sequence of characters.
pub enum FontErrorView {
    NotFound { family: EnumFamilyView, name: Seq<char> },
    WrongEnumerationFamily { expected: EnumFamilyView, actual: EnumFamilyView },
    IntegrityViolation { family: EnumFamilyView, code: u16 },
}

impl View for FontError {
    type V = FontErrorView;

    open spec fn view(&self) -> FontErrorView {
        match self {
            FontError::NotFound { family, name } => FontErrorView::NotFound {
                family: family@,
                name: name@,
            },
            FontError::WrongEnumerationFamily {
                expected,
                actual,
            } => FontErrorView::WrongEnumerationFamily { expected: expected@, actual: actual@ },
            FontError::IntegrityViolation { family, code } => FontErrorView::IntegrityViolation {
                family: family@,
                code: *code,
            },
        }
    }
}

impl Clone for FontError {
    fn clone(&self) -> (copy: Self)
        ensures
            copy@ == self@,
    {
        match self {
            FontError::NotFound { family, name } => FontError::NotFound {
                family: family.clone(),
                name: name.clone(),
            },
            FontError::WrongEnumerationFamily {
                expected,
                actual,
            } => FontError::WrongEnumerationFamily {
                expected: expected.clone(),
                actual: actual.clone(),
            },
            FontError::IntegrityViolation { family, code } => FontError::IntegrityViolation {
                family: family.clone(),
                code: *code,
            },
        }
    }
}

} // verus!
