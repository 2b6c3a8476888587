//! FontDescriptor weights: nine named levels with numeric codes 100 to 900.

use vstd::prelude::*;
use vstd::string::StringExecFns;

use crate::error::{FontError, FontErrorView};
use crate::family::{EnumFamily, EnumFamilyView, EnumItem, EnumItemView};
use crate::text::str_eq;

verus! {

/// How heavy the strokes of a font are.
#[derive(Debug, Clone, Copy, PartialEq, Eq, Structural)]
pub enum WeightScale {
    Thin,
    ExtraLight,
    Light,
    Regular,
    Medium,
    SemiBold,
    Bold,
    ExtraBold,
    Heavy,
}

impl WeightScale {
    /// The numeric code of a weight.
    pub open spec fn spec_as_u16(&self) -> u16 {
        match self {
            Self::Thin => 100,
            Self::ExtraLight => 200,
            Self::Light => 300,
            Self::Regular => 400,
            Self::Medium => 500,
            Self::SemiBold => 600,
            Self::Bold => 700,
            Self::ExtraBold => 800,
            Self::Heavy => 900,
        }
    }

    /// The weight that a numeric code stands for, if any.
    pub open spec fn spec_from_u16(n: u16) -> Option<Self> {
        match n {
            100 => Some(Self::Thin),
            200 => Some(Self::ExtraLight),
            300 => Some(Self::Light),
            400 => Some(Self::Regular),
            500 => Some(Self::Medium),
            600 => Some(Self::SemiBold),
            700 => Some(Self::Bold),
            800 => Some(Self::ExtraBold),
            900 => Some(Self::Heavy),
            _ => None,
        }
    }

    /// The numeric code of the weight: 100 for `Thin`, then in steps of 100
    /// up to 900 for `Heavy`.
    #[verifier::when_used_as_spec(spec_as_u16)]
    pub fn as_u16(&self) -> (code: u16)
        ensures
            code == self.spec_as_u16(),
    {
        match self {
            Self::Thin => 100,
            Self::ExtraLight => 200,
            Self::Light => 300,
            Self::Regular => 400,
            Self::Medium => 500,
            Self::SemiBold => 600,
            Self::Bold => 700,
            Self::ExtraBold => 800,
            Self::Heavy => 900,
        }
    }

    /// The weight with the code `n`; `None` where no weight has that code.
    pub fn from_u16(n: u16) -> (found: Option<Self>)
        ensures
            found == Self::spec_from_u16(n),
            match found {
                Some(weight) => weight.spec_as_u16() == n,
                None => forall|weight: Self| weight.spec_as_u16() != n,
            },
    {
        match n {
            100 => Some(Self::Thin),
            200 => Some(Self::ExtraLight),
            300 => Some(Self::Light),
            400 => Some(Self::Regular),
            500 => Some(Self::Medium),
            600 => Some(Self::SemiBold),
            700 => Some(Self::Bold),
            800 => Some(Self::ExtraBold),
            900 => Some(Self::Heavy),
            _ => None,
        }
    }
}

impl WeightScale {
    /// The canonical name of a weight.
    pub open spec fn spec_name(&self) -> Seq<char> {
        match self {
            Self::Thin => "Thin"@,
            Self::ExtraLight => "ExtraLight"@,
            Self::Light => "Light"@,
            Self::Regular => "Regular"@,
            Self::Medium => "Medium"@,
            Self::SemiBold => "SemiBold"@,
            Self::Bold => "Bold"@,
            Self::ExtraBold => "ExtraBold"@,
            Self::Heavy => "Heavy"@,
        }
    }

    /// The weight that a text names, if any: an exact, case-sensitive match
    /// against the nine canonical names.
    pub open spec fn spec_from_name(s: Seq<char>) -> Option<Self> {
        if s == "Thin"@ {
            Some(Self::Thin)
        } else if s == "ExtraLight"@ {
            Some(Self::ExtraLight)
        } else if s == "Light"@ {
            Some(Self::Light)
        } else if s == "Regular"@ {
            Some(Self::Regular)
        } else if s == "Medium"@ {
            Some(Self::Medium)
        } else if s == "SemiBold"@ {
            Some(Self::SemiBold)
        } else if s == "Bold"@ {
            Some(Self::Bold)
        } else if s == "ExtraBold"@ {
            Some(Self::ExtraBold)
        } else if s == "Heavy"@ {
            Some(Self::Heavy)
        } else {
            None
        }
    }

    /// The canonical name of the weight.
    pub fn name(&self) -> (text: &'static str)
        ensures
            text@ == self.spec_name(),
    {
        match self {
            Self::Thin => "Thin",
            Self::ExtraLight => "ExtraLight",
            Self::Light => "Light",
            Self::Regular => "Regular",
            Self::Medium => "Medium",
            Self::SemiBold => "SemiBold",
            Self::Bold => "Bold",
            Self::ExtraBold => "ExtraBold",
            Self::Heavy => "Heavy",
        }
    }

    /// The weight with the canonical name `s`, compared letter for letter;
    /// `None` where no weight has that name.
    pub fn from_name(s: &str) -> (found: Option<Self>)
        ensures
            found == Self::spec_from_name(s@),
            match found {
                Some(weight) => weight.spec_name() == s@,
                None => forall|weight: Self| weight.spec_name() != s@,
            },
    {
        if str_eq(s, "Thin") {
            Some(Self::Thin)
        } else if str_eq(s, "ExtraLight") {
            Some(Self::ExtraLight)
        } else if str_eq(s, "Light") {
            Some(Self::Light)
        } else if str_eq(s, "Regular") {
            Some(Self::Regular)
        } else if str_eq(s, "Medium") {
            Some(Self::Medium)
        } else if str_eq(s, "SemiBold") {
            Some(Self::SemiBold)
        } else if str_eq(s, "Bold") {
            Some(Self::Bold)
        } else if str_eq(s, "ExtraBold") {
            Some(Self::ExtraBold)
        } else if str_eq(s, "Heavy") {
            Some(Self::Heavy)
        } else {
            None
        }
    }

    /// The length and first letter of each canonical name.
    proof fn lemma_name_shape(self)
        ensures
            self.spec_name().len() == match self {
                Self::Thin => 4nat,
                Self::ExtraLight => 10,
                Self::Light => 5,
                Self::Regular => 7,
                Self::Medium => 6,
                Self::SemiBold => 8,
                Self::Bold => 4,
                Self::ExtraBold => 9,
                Self::Heavy => 5,
            },
            self.spec_name()[0] == match self {
                Self::Thin => 'T',
                Self::ExtraLight => 'E',
                Self::Light => 'L',
                Self::Regular => 'R',
                Self::Medium => 'M',
                Self::SemiBold => 'S',
                Self::Bold => 'B',
                Self::ExtraBold => 'E',
                Self::Heavy => 'H',
            },
    {
        reveal_strlit("Thin");
        reveal_strlit("ExtraLight");
        reveal_strlit("Light");
        reveal_strlit("Regular");
        reveal_strlit("Medium");
        reveal_strlit("SemiBold");
        reveal_strlit("Bold");
        reveal_strlit("ExtraBold");
        reveal_strlit("Heavy");
    }

    /// No two weights share a name.
    pub proof fn lemma_names_distinct(a: Self, b: Self)
        ensures
            a.spec_name() == b.spec_name() <==> a == b,
    {
        a.lemma_name_shape();
        b.lemma_name_shape();
    }

    /// Parsing the name of a weight gives that weight back.
    pub proof fn lemma_name_round_trip(self)
        ensures
            Self::spec_from_name(self.spec_name()) == Some(self),
    {
        Self::lemma_names_distinct(self, Self::Thin);
        Self::lemma_names_distinct(self, Self::ExtraLight);
        Self::lemma_names_distinct(self, Self::Light);
        Self::lemma_names_distinct(self, Self::Regular);
        Self::lemma_names_distinct(self, Self::Medium);
        Self::lemma_names_distinct(self, Self::SemiBold);
        Self::lemma_names_distinct(self, Self::Bold);
        Self::lemma_names_distinct(self, Self::ExtraBold);
        Self::lemma_names_distinct(self, Self::Heavy);
    }

    /// A text parses to a weight exactly when it is that weight's name.
    pub proof fn lemma_from_name_is_inverse(s: Seq<char>, w: Self)
        ensures
            Self::spec_from_name(s) == Some(w) <==> s == w.spec_name(),
    {
        w.lemma_name_round_trip();
    }

    /// Decoding the code of a weight gives that weight back.
    pub proof fn lemma_code_round_trip(self)
        ensures
            Self::spec_from_u16(self.spec_as_u16()) == Some(self),
    {
    }

    /// A code decodes to a weight exactly when it is that weight's code, and
    /// the codes that decode are the multiples of 100 from 100 to 900.
    pub proof fn lemma_from_code_is_inverse(n: u16, w: Self)
        ensures
            Self::spec_from_u16(n) == Some(w) <==> n == w.spec_as_u16(),
            Self::spec_from_u16(n) is Some <==> 100 <= n <= 900 && n % 100 == 0,
    {
    }
}

impl WeightScale {
    /// The weight that an enumerator stands for: the enumerator has to belong
    /// to the `FontWeight` family, and its name has to be one of the canonical
    /// names.
    pub open spec fn spec_from_enum_item(value: EnumItemView) -> Result<Self, FontErrorView> {
        match value.family {
            EnumFamilyView::FontWeight => match Self::spec_from_name(value.name) {
                Some(weight) => Ok(weight),
                None => Err(
                    FontErrorView::NotFound {
                        family: EnumFamilyView::FontWeight,
                        name: value.name,
                    },
                ),
            },
            other => Err(
                FontErrorView::WrongEnumerationFamily {
                    expected: EnumFamilyView::FontWeight,
                    actual: other,
                },
            ),
        }
    }

    /// The weight that a code of the document model stands for. A code
    /// outside the valid set is an integrity violation.
    pub open spec fn spec_from_external_code(code: u16) -> Result<Self, FontErrorView> {
        match Self::spec_from_u16(code) {
            Some(weight) => Ok(weight),
            None => Err(
                FontErrorView::IntegrityViolation {
                    family: EnumFamilyView::FontWeight,
                    code: code,
                },
            ),
        }
    }

    /// Checks that an enumerator is a weight and gives the weight. An
    /// enumerator of another family is refused with `WrongEnumerationFamily`,
    /// a name that is no weight with `NotFound`.
    pub fn from_enum_item(value: &EnumItem) -> (checked: Result<Self, FontError>)
        ensures
            match Self::spec_from_enum_item(value@) {
                Ok(weight) => checked == Ok::<Self, FontError>(weight),
                Err(error) => checked matches Err(e) && e@ == error,
            },
    {
        match &value.family {
            EnumFamily::FontWeight => match Self::from_name(value.name.as_str()) {
                Some(weight) => Ok(weight),
                None => Err(
                    FontError::NotFound {
                        family: EnumFamily::FontWeight,
                        name: value.name.clone(),
                    },
                ),
            },
            other => Err(
                FontError::WrongEnumerationFamily {
                    expected: EnumFamily::FontWeight,
                    actual: other.clone(),
                },
            ),
        }
    }

    /// Decodes a code that came from the document model. The document model
    /// only produces valid codes; one that is not valid is reported as
    /// `IntegrityViolation` with the code.
    pub fn from_external_code(code: u16) -> (decoded: Result<Self, FontError>)
        ensures
            match Self::spec_from_external_code(code) {
                Ok(weight) => decoded == Ok::<Self, FontError>(weight),
                Err(error) => decoded matches Err(e) && e@ == error,
            },
    {
        match Self::from_u16(code) {
            Some(weight) => Ok(weight),
            None => Err(FontError::IntegrityViolation { family: EnumFamily::FontWeight, code }),
        }
    }
}

impl WeightScale {
    /// What parsing a text as a weight gives: the weight that the text names,
    /// or a fixed message.
    pub open spec fn spec_parse(s: Seq<char>) -> Result<Self, Seq<char>> {
        match Self::spec_from_name(s) {
            Some(weight) => Ok(weight),
            None => Err("Unknown FontWeight"@),
        }
    }

    /// Parses the canonical name of a weight; any other text is refused with
    /// a fixed message.
    pub fn parse(s: &str) -> (parsed: Result<Self, &'static str>)
        ensures
            match Self::spec_parse(s@) {
                Ok(weight) => parsed == Ok::<Self, &'static str>(weight),
                Err(message) => parsed matches Err(m) && m@ == message,
            },
    {
        match Self::from_name(s) {
            Some(weight) => Ok(weight),
            None => Err("Unknown FontWeight"),
        }
    }

    /// The canonical name of the weight, as an owned text.
    pub fn to_string(&self) -> (text: String)
        ensures
            text@ == self.spec_name(),
    {
        String::from_str(self.name())
    }
}

impl std::str::FromStr for WeightScale {
    type Err = &'static str;

    /// Parses as [`WeightScale::parse`] does.
    fn from_str(s: &str) -> (parsed: Result<Self, &'static str>)
        ensures
            match Self::spec_parse(s@) {
                Ok(weight) => parsed == Ok::<Self, &'static str>(weight),
                Err(message) => parsed matches Err(m) && m@ == message,
            },
    {
        Self::parse(s)
    }
}

} // verus!
