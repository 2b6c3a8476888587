//! FontDescriptor styles: upright or italic, with numeric codes 0 and 1.

use vstd::prelude::*;
use vstd::string::StringExecFns;

use crate::error::{FontError, FontErrorView};
use crate::family::{EnumFamily, EnumFamilyView, EnumItem, EnumItemView};
use crate::text::str_eq;

verus! {

/// Whether a font is upright or slanted.
#[derive(Debug, Clone, Copy, PartialEq, Eq, Structural)]
pub enum StyleKind {
    Normal,
    Italic,
}

impl StyleKind {
    /// The numeric code of a style.
    pub open spec fn spec_as_u8(&self) -> u8 {
        match self {
            Self::Normal => 0,
            Self::Italic => 1,
        }
    }

    /// The style that a numeric code stands for, if any.
    pub open spec fn spec_from_u8(n: u8) -> Option<Self> {
        match n {
            0 => Some(Self::Normal),
            1 => Some(Self::Italic),
            _ => None,
        }
    }

    /// The canonical name of a style.
    pub open spec fn spec_name(&self) -> Seq<char> {
        match self {
            Self::Normal => "Normal"@,
            Self::Italic => "Italic"@,
        }
    }

    /// The style that a text names, if any: an exact, case-sensitive match
    /// against the two canonical names.
    pub open spec fn spec_from_name(s: Seq<char>) -> Option<Self> {
        if s == "Normal"@ {
            Some(Self::Normal)
        } else if s == "Italic"@ {
            Some(Self::Italic)
        } else {
            None
        }
    }

    /// The numeric code of the style: 0 for `Normal`, 1 for `Italic`.
    #[verifier::when_used_as_spec(spec_as_u8)]
    pub fn as_u8(&self) -> (code: u8)
        ensures
            code == self.spec_as_u8(),
    {
        match self {
            Self::Normal => 0,
            Self::Italic => 1,
        }
    }

    /// The style with the code `n`; `None` where no style has that code.
    pub fn from_u8(n: u8) -> (found: Option<Self>)
        ensures
            found == Self::spec_from_u8(n),
            match found {
                Some(style) => style.spec_as_u8() == n,
                None => forall|style: Self| style.spec_as_u8() != n,
            },
    {
        match n {
            0 => Some(Self::Normal),
            1 => Some(Self::Italic),
            _ => None,
        }
    }

    /// The canonical name of the style.
    pub fn name(&self) -> (text: &'static str)
        ensures
            text@ == self.spec_name(),
    {
        match self {
            Self::Normal => "Normal",
            Self::Italic => "Italic",
        }
    }

    /// The style with the canonical name `s`, compared letter for letter;
    /// `None` where no style has that name.
    pub fn from_name(s: &str) -> (found: Option<Self>)
        ensures
            found == Self::spec_from_name(s@),
            match found {
                Some(style) => style.spec_name() == s@,
                None => forall|style: Self| style.spec_name() != s@,
            },
    {
        if str_eq(s, "Normal") {
            Some(Self::Normal)
        } else if str_eq(s, "Italic") {
            Some(Self::Italic)
        } else {
            None
        }
    }

    /// The two names differ.
    pub proof fn lemma_names_distinct(a: Self, b: Self)
        ensures
            a.spec_name() == b.spec_name() <==> a == b,
    {
        reveal_strlit("Normal");
        reveal_strlit("Italic");
        assert("Normal"@[0] == 'N');
        assert("Italic"@[0] == 'I');
    }

    /// Parsing the name of a style gives that style back.
    pub proof fn lemma_name_round_trip(self)
        ensures
            Self::spec_from_name(self.spec_name()) == Some(self),
    {
        Self::lemma_names_distinct(Self::Normal, Self::Italic);
    }

    /// A text parses to a style exactly when it is that style's name.
    pub proof fn lemma_from_name_is_inverse(s: Seq<char>, style: Self)
        ensures
            Self::spec_from_name(s) == Some(style) <==> s == style.spec_name(),
    {
        style.lemma_name_round_trip();
    }

    /// Decoding the code of a style gives that style back.
    pub proof fn lemma_code_round_trip(self)
        ensures
            Self::spec_from_u8(self.spec_as_u8()) == Some(self),
    {
    }

    /// A code decodes to a style exactly when it is that style's code, and
    /// the codes that decode are 0 and 1.
    pub proof fn lemma_from_code_is_inverse(n: u8, style: Self)
        ensures
            Self::spec_from_u8(n) == Some(style) <==> n == style.spec_as_u8(),
            Self::spec_from_u8(n) is Some <==> n <= 1,
    {
    }
}

impl StyleKind {
    /// The style that an enumerator stands for: the enumerator has to belong
    /// to the `FontStyle` family, and its name has to be one of the canonical
    /// names.
    pub open spec fn spec_from_enum_item(value: EnumItemView) -> Result<Self, FontErrorView> {
        match value.family {
            EnumFamilyView::FontStyle => match Self::spec_from_name(value.name) {
                Some(style) => Ok(style),
                None => Err(
                    FontErrorView::NotFound { family: EnumFamilyView::FontStyle, name: value.name },
                ),
            },
            other => Err(
                FontErrorView::WrongEnumerationFamily {
                    expected: EnumFamilyView::FontStyle,
                    actual: other,
                },
            ),
        }
    }

    /// The style that a code of the document model stands for. A code
    /// outside the valid set is an integrity violation.
    pub open spec fn spec_from_external_code(code: u8) -> Result<Self, FontErrorView> {
        match Self::spec_from_u8(code) {
            Some(style) => Ok(style),
            None => Err(
                FontErrorView::IntegrityViolation {
                    family: EnumFamilyView::FontStyle,
                    code: code as u16,
                },
            ),
        }
    }

    /// Checks that an enumerator is a style and gives the style. An
    /// enumerator of another family is refused with `WrongEnumerationFamily`,
    /// a name that is no style with `NotFound`.
    pub fn from_enum_item(value: &EnumItem) -> (checked: Result<Self, FontError>)
        ensures
            match Self::spec_from_enum_item(value@) {
                Ok(style) => checked == Ok::<Self, FontError>(style),
                Err(error) => checked matches Err(e) && e@ == error,
            },
    {
        match &value.family {
            EnumFamily::FontStyle => match Self::from_name(value.name.as_str()) {
                Some(style) => Ok(style),
                None => Err(
                    FontError::NotFound { family: EnumFamily::FontStyle, name: value.name.clone() },
                ),
            },
            other => Err(
                FontError::WrongEnumerationFamily {
                    expected: EnumFamily::FontStyle,
                    actual: other.clone(),
                },
            ),
        }
    }

    /// Decodes a code that came from the document model. The document model
    /// only produces valid codes; one that is not valid is reported as
    /// `IntegrityViolation` with the code.
    pub fn from_external_code(code: u8) -> (decoded: Result<Self, FontError>)
        ensures
            match Self::spec_from_external_code(code) {
                Ok(style) => decoded == Ok::<Self, FontError>(style),
                Err(error) => decoded matches Err(e) && e@ == error,
            },
    {
        match Self::from_u8(code) {
            Some(style) => Ok(style),
            None => Err(
                FontError::IntegrityViolation { family: EnumFamily::FontStyle, code: code as u16 },
            ),
        }
    }
}

impl StyleKind {
    /// What parsing a text as a style gives: the style that the text names,
    /// or a fixed message.
    pub open spec fn spec_parse(s: Seq<char>) -> Result<Self, Seq<char>> {
        match Self::spec_from_name(s) {
            Some(style) => Ok(style),
            None => Err("Unknown FontStyle"@),
        }
    }

    /// Parses the canonical name of a style; any other text is refused with
    /// a fixed message.
    pub fn parse(s: &str) -> (parsed: Result<Self, &'static str>)
        ensures
            match Self::spec_parse(s@) {
                Ok(style) => parsed == Ok::<Self, &'static str>(style),
                Err(message) => parsed matches Err(m) && m@ == message,
            },
    {
        match Self::from_name(s) {
            Some(style) => Ok(style),
            None => Err("Unknown FontStyle"),
        }
    }

    /// The canonical name of the style, as an owned text.
    pub fn to_string(&self) -> (text: String)
        ensures
            text@ == self.spec_name(),
    {
        String::from_str(self.name())
    }
}

impl std::str::FromStr for StyleKind {
    type Err = &'static str;

    /// Parses as [`StyleKind::parse`] does.
    fn from_str(s: &str) -> (parsed: Result<Self, &'static str>)
        ensures
            match Self::spec_parse(s@) {
                Ok(style) => parsed == Ok::<Self, &'static str>(style),
                Err(message) => parsed matches Err(m) && m@ == message,
            },
    {
        Self::parse(s)
    }
}

} // verus!
