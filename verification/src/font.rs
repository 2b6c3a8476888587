//! The font descriptor: a family, a weight and a style.

use vstd::prelude::*;
use vstd::std_specs::cmp::PartialEqSpec;
use vstd::string::StringExecFns;

use crate::catalog::{resolve, spec_resolve};
use crate::error::{FontError, FontErrorView};
use crate::family::{EnumFamily, EnumFamilyView, EnumItem, EnumItemView};
use crate::style::StyleKind;
use crate::weight::WeightScale;

verus! {

/// A font, named by the family it belongs to, its weight and its style.
///
/// The family is a resource path or a name; nothing is asked of it. Two
/// fonts are equal when family, weight and style are equal, the family
/// compared letter for letter.
#[derive(Debug)]
pub struct FontDescriptor {
    family: String,
    weight: WeightScale,
    style: StyleKind,
}

/// What a [`FontDescriptor`] is, with the family as a sequence of characters.
pub struct FontView {
    pub family: Seq<char>,
    pub weight: WeightScale,
    pub style: StyleKind,
}

impl FontView {
    /// Whether the font counts as bold: its weight code is 600 or more.
    pub open spec fn bold(self) -> bool {
        self.weight.spec_as_u16() >= 600
    }

    /// The font with another weight.
    pub open spec fn with_weight(self, weight: WeightScale) -> FontView {
        FontView { weight, ..self }
    }

    /// The font with another style.
    pub open spec fn with_style(self, style: StyleKind) -> FontView {
        FontView { style, ..self }
    }

    /// The font after its boldness is set: weight `Bold` for `true`,
    /// `Regular` for `false`, whatever the weight was.
    pub open spec fn with_bold(self, bold: bool) -> FontView {
        self.with_weight(
            if bold {
                WeightScale::Bold
            } else {
                WeightScale::Regular
            },
        )
    }

    /// The display form: family, weight name and style name, separated by a
    /// comma and a space.
    pub open spec fn display(self) -> Seq<char> {
        self.family + ", "@ + self.weight.spec_name() + ", "@ + self.style.spec_name()
    }

    /// The weight as the enumerator that scripts see.
    pub open spec fn weight_item(self) -> EnumItemView {
        EnumItemView { family: EnumFamilyView::FontWeight, name: self.weight.spec_name() }
    }

    /// The style as the enumerator that scripts see.
    pub open spec fn style_item(self) -> EnumItemView {
        EnumItemView { family: EnumFamilyView::FontStyle, name: self.style.spec_name() }
    }

    /// The family and the numeric codes of weight and style: the form in
    /// which the document model holds a font.
    pub open spec fn codes(self) -> (Seq<char>, u16, u8) {
        (self.family, self.weight.spec_as_u16(), self.style.spec_as_u8())
    }

    /// The font that a family and two numeric codes stand for. The family
    /// passes through; a code outside the valid set of its family is an
    /// integrity violation, that of the weight reported first.
    pub open spec fn from_codes(family: Seq<char>, weight: u16, style: u8) -> Result<
        FontView,
        FontErrorView,
    > {
        match WeightScale::spec_from_external_code(weight) {
            Ok(weight) => match StyleKind::spec_from_external_code(style) {
                Ok(style) => Ok(FontView { family, weight, style }),
                Err(error) => Err(error),
            },
            Err(error) => Err(error),
        }
    }

    /// The font that a legacy enumerator stands for: the enumerator has to
    /// belong to the `Font` family, and its name has to resolve.
    pub open spec fn from_enum_item(value: EnumItemView) -> Result<FontView, FontErrorView> {
        match value.family {
            EnumFamilyView::Font => match spec_resolve(value.name) {
                Some(font) => Ok(font),
                None => Err(
                    FontErrorView::NotFound { family: EnumFamilyView::Font, name: value.name },
                ),
            },
            other => Err(
                FontErrorView::WrongEnumerationFamily {
                    expected: EnumFamilyView::Font,
                    actual: other,
                },
            ),
        }
    }
}

impl View for FontDescriptor {
    type V = FontView;

    closed spec fn view(&self) -> FontView {
        FontView { family: self.family@, weight: self.weight, style: self.style }
    }
}

impl Clone for FontDescriptor {
    fn clone(&self) -> (copy: Self)
        ensures
            copy@ == self@,
    {
        FontDescriptor { family: self.family.clone(), weight: self.weight, style: self.style }
    }
}

impl PartialEq for FontDescriptor {
    /// Whether family, weight and style are all equal.
    fn eq(&self, other: &Self) -> (same: bool)
        ensures
            same == (self@ == other@),
    {
        self.family == other.family && self.weight == other.weight && self.style == other.style
    }
}

impl vstd::std_specs::cmp::PartialEqSpecImpl for FontDescriptor {
    open spec fn obeys_eq_spec() -> bool {
        true
    }

    open spec fn eq_spec(&self, other: &Self) -> bool {
        self@ == other@
    }
}

impl FontDescriptor {
    /// A font from its three parts. Every family text is accepted.
    pub fn new(family: String, weight: WeightScale, style: StyleKind) -> (font: Self)
        ensures
            font@ == (FontView { family: family@, weight, style }),
    {
        FontDescriptor { family, weight, style }
    }

    /// The font that the name of `item` resolves to in the legacy catalog.
    /// The family of `item` is not looked at.
    pub fn from_enum(item: &EnumItem) -> (found: Option<FontDescriptor>)
        ensures
            match found {
                Some(font) => spec_resolve(item@.name) == Some(font@),
                None => spec_resolve(item@.name) is None,
            },
    {
        resolve(item.name.as_str())
    }

    /// The font that a legacy enumerator stands for. An enumerator of
    /// another family is refused with `WrongEnumerationFamily`, a name
    /// without a mapping with `NotFound`.
    pub fn from_enum_item(value: &EnumItem) -> (made: Result<FontDescriptor, FontError>)
        ensures
            match FontView::from_enum_item(value@) {
                Ok(font) => made matches Ok(f) && f@ == font,
                Err(error) => made matches Err(e) && e@ == error,
            },
    {
        match &value.family {
            EnumFamily::Font => match FontDescriptor::from_enum(value) {
                Some(font) => Ok(font),
                None => Err(
                    FontError::NotFound { family: EnumFamily::Font, name: value.name.clone() },
                ),
            },
            other => Err(
                FontError::WrongEnumerationFamily {
                    expected: EnumFamily::Font,
                    actual: other.clone(),
                },
            ),
        }
    }

    /// The font that a family and the document model's numeric codes of
    /// weight and style stand for. A code that is not valid is reported as
    /// `IntegrityViolation`, that of the weight first.
    pub fn from_codes(family: String, weight: u16, style: u8) -> (made: Result<
        FontDescriptor,
        FontError,
    >)
        ensures
            match FontView::from_codes(family@, weight, style) {
                Ok(font) => made matches Ok(f) && f@ == font,
                Err(error) => made matches Err(e) && e@ == error,
            },
    {
        let weight = match WeightScale::from_external_code(weight) {
            Ok(weight) => weight,
            Err(error) => {
                return Err(error);
            },
        };
        let style = match StyleKind::from_external_code(style) {
            Ok(style) => style,
            Err(error) => {
                return Err(error);
            },
        };
        Ok(FontDescriptor { family, weight, style })
    }

    /// The family and the numeric codes of weight and style.
    pub fn into_codes(self) -> (codes: (String, u16, u8))
        ensures
            (codes.0@, codes.1, codes.2) == self@.codes(),
    {
        let weight = self.weight.as_u16();
        let style = self.style.as_u8();
        (self.family, weight, style)
    }

    /// A copy of the family text.
    pub fn family(&self) -> (family: String)
        ensures
            family@ == self@.family,
    {
        self.family.clone()
    }

    /// The weight of the font.
    pub fn weight(&self) -> (weight: WeightScale)
        ensures
            weight == self@.weight,
    {
        self.weight
    }

    /// The style of the font.
    pub fn style(&self) -> (style: StyleKind)
        ensures
            style == self@.style,
    {
        self.style
    }

    /// The weight as a named enumerator of the `FontWeight` family.
    pub fn weight_item(&self) -> (item: EnumItem)
        ensures
            item@ == self@.weight_item(),
    {
        EnumItem::new(EnumFamily::FontWeight, self.weight.name())
    }

    /// The style as a named enumerator of the `FontStyle` family.
    pub fn style_item(&self) -> (item: EnumItem)
        ensures
            item@ == self@.style_item(),
    {
        EnumItem::new(EnumFamily::FontStyle, self.style.name())
    }

    /// Whether the font counts as bold: its weight code is 600 or more.
    pub fn bold(&self) -> (bold: bool)
        ensures
            bold == self@.bold(),
    {
        self.weight.as_u16() >= 600
    }

    /// Sets the weight from an enumerator. The enumerator has to belong to
    /// the `FontWeight` family and name a weight; else the font stays as it
    /// is and the error says which of the two failed.
    pub fn set_weight(&mut self, value: &EnumItem) -> (done: Result<(), FontError>)
        ensures
            match WeightScale::spec_from_enum_item(value@) {
                Ok(weight) => done is Ok && final(self)@ == old(self)@.with_weight(weight),
                Err(error) => done matches Err(e) && e@ == error && final(self)@ == old(self)@,
            },
    {
        match WeightScale::from_enum_item(value) {
            Ok(weight) => {
                self.weight = weight;
                Ok(())
            },
            Err(error) => Err(error),
        }
    }

    /// Sets the style from an enumerator. The enumerator has to belong to
    /// the `FontStyle` family and name a style; else the font stays as it is
    /// and the error says which of the two failed.
    pub fn set_style(&mut self, value: &EnumItem) -> (done: Result<(), FontError>)
        ensures
            match StyleKind::spec_from_enum_item(value@) {
                Ok(style) => done is Ok && final(self)@ == old(self)@.with_style(style),
                Err(error) => done matches Err(e) && e@ == error && final(self)@ == old(self)@,
            },
    {
        match StyleKind::from_enum_item(value) {
            Ok(style) => {
                self.style = style;
                Ok(())
            },
            Err(error) => Err(error),
        }
    }

    /// Makes the font bold or regular. The weight it had is lost.
    pub fn set_bold(&mut self, value: bool)
        ensures
            final(self)@ == old(self)@.with_bold(value),
    {
        if value {
            self.weight = WeightScale::Bold;
        } else {
            self.weight = WeightScale::Regular;
        }
    }

    /// The display form of the font, for diagnostics.
    pub fn to_string(&self) -> (text: String)
        ensures
            text@ == self@.display(),
    {
        let mut text = self.family.clone();
        text.append(", ");
        text.append(self.weight.name());
        text.append(", ");
        text.append(self.style.name());
        text
    }

    /// A font comes back unchanged from its family and codes.
    pub proof fn lemma_codes_round_trip(font: FontView)
        ensures
            FontView::from_codes(font.codes().0, font.codes().1, font.codes().2) == Ok::<
                FontView,
                FontErrorView,
            >(font),
    {
    }

    /// Fonts that resolve from one legacy name are equal.
    pub proof fn lemma_same_name_same_font(a: FontDescriptor, b: FontDescriptor, name: Seq<char>)
        requires
            spec_resolve(name) == Some(a@),
            spec_resolve(name) == Some(b@),
        ensures
            a.eq_spec(&b),
    {
    }

    /// Equality is equality of family, weight and style, the family letter
    /// for letter: fonts whose families differ in any character differ.
    pub proof fn lemma_eq_is_fieldwise(a: FontDescriptor, b: FontDescriptor)
        ensures
            a.eq_spec(&b) <==> (a@.family == b@.family && a@.weight == b@.weight && a@.style
                == b@.style),
            a.eq_spec(&b) ==> (a@.family.len() == b@.family.len() && forall|i: int|
                0 <= i < a@.family.len() ==> a@.family[i] == b@.family[i]),
    {
    }

    /// A font is bold from `SemiBold` on, and not bold up to `Medium`.
    pub proof fn lemma_bold_threshold(font: FontView)
        ensures
            font.bold() <==> (font.weight == WeightScale::SemiBold || font.weight
                == WeightScale::Bold || font.weight == WeightScale::ExtraBold || font.weight
                == WeightScale::Heavy),
            !font.bold() <==> (font.weight == WeightScale::Thin || font.weight
                == WeightScale::ExtraLight || font.weight == WeightScale::Light || font.weight
                == WeightScale::Regular || font.weight == WeightScale::Medium),
            font.with_bold(true).bold(),
            !font.with_bold(false).bold(),
    {
    }
}

} // verus!
