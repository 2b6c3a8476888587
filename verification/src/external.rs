//! Conversion between font descriptors and the fonts of the document model.
//!
//! The document model (`rbx_dom_weak`) has a font type of its own, with its
//! own weight and style enumerations. Both sides number weights 100 to 900
//! and styles 0 and 1, and the conversions go through those codes. What is
//! stated here of the document model's functions is taken from their source
//! and is not proved.

use vstd::prelude::*;

use rbx_dom_weak::types::Font as RbxFont;
use rbx_dom_weak::types::FontStyle as RbxFontStyle;
use rbx_dom_weak::types::FontWeight as RbxFontWeight;

use crate::font::{FontDescriptor, FontView};
use crate::style::StyleKind;
use crate::weight::WeightScale;

verus! {

/// The weight enumeration of the document model, `rbx_types::FontWeight`.
/// Its values are carried through; what they are is known by their code.
#[verifier::external_type_specification]
#[verifier::external_body]
pub struct ExRbxFontWeight(rbx_dom_weak::types::FontWeight);

/// The style enumeration of the document model, `rbx_types::FontStyle`.
/// Its values are carried through; what they are is known by their code.
#[verifier::external_type_specification]
#[verifier::external_body]
pub struct ExRbxFontStyle(rbx_dom_weak::types::FontStyle);

/// The font of the document model, `rbx_types::Font`: a struct of a family,
/// a weight, a style and a cached face id.
#[verifier::external_type_specification]
#[verifier::external_body]
pub struct ExRbxFont(rbx_dom_weak::types::Font);

/// The code of a weight of the document model: what
/// `rbx_types::FontWeight::as_u16` returns for it.
pub uninterp spec fn rbx_weight_code(weight: RbxFontWeight) -> u16;

/// The code of a style of the document model: what
/// `rbx_types::FontStyle::as_u8` returns for it.
pub uninterp spec fn rbx_style_code(style: RbxFontStyle) -> u8;

/// What a font of the document model holds: its family, the code of its
/// weight, the code of its style, and its cached face id.
pub uninterp spec fn rbx_font_parts(font: RbxFont) -> (Seq<char>, u16, u8, Option<Seq<char>>);

/// `rbx_types::FontWeight::as_u16` matches on the nine variants and returns
/// 100 for the first up to 900 for the last: the result is the weight's code,
/// a multiple of 100 from 100 to 900.
pub assume_specification[ RbxFontWeight::as_u16 ](weight: RbxFontWeight) -> (code: u16)
    ensures
        code == rbx_weight_code(weight),
        100 <= code <= 900,
        code % 100 == 0,
;

/// `rbx_types::FontWeight::from_u16` returns a weight for the nine codes
/// 100, 200, .. 900, the one that `as_u16` maps to that code, and `None` for
/// every other number.
pub assume_specification[ RbxFontWeight::from_u16 ](weight: u16) -> (found: Option<RbxFontWeight>)
    ensures
        found is Some <==> (100 <= weight <= 900 && weight % 100 == 0),
        found matches Some(w) ==> rbx_weight_code(w) == weight,
;

/// `rbx_types::FontStyle::as_u8` returns 0 for `Normal` and 1 for `Italic`:
/// the result is the style's code, 0 or 1.
pub assume_specification[ RbxFontStyle::as_u8 ](style: RbxFontStyle) -> (code: u8)
    ensures
        code == rbx_style_code(style),
        code <= 1,
;

/// `rbx_types::FontStyle::from_u8` returns a style for 0 and for 1, the one
/// that `as_u8` maps to that code, and `None` for every other number.
pub assume_specification[ RbxFontStyle::from_u8 ](style: u8) -> (found: Option<RbxFontStyle>)
    ensures
        found is Some <==> style <= 1,
        found matches Some(s) ==> rbx_style_code(s) == style,
;

/// `rbx_types::Font::new` copies the family text, stores weight and style as
/// given, and leaves the cached face id empty.
pub assume_specification[ RbxFont::new ](
    family: &str,
    weight: RbxFontWeight,
    style: RbxFontStyle,
) -> (font: RbxFont)
    ensures
        rbx_font_parts(font) == (
            family@,
            rbx_weight_code(weight),
            rbx_style_code(style),
            None::<Seq<char>>,
        ),
;

/// Takes a font of the document model apart: the fields `family`, `weight`
/// and `style` of `rbx_types::Font`, moved out as they are. The cached face
/// id is dropped.
#[verifier::external_body]
fn rbx_font_into_parts(font: RbxFont) -> (parts: (String, RbxFontWeight, RbxFontStyle))
    ensures
        parts.0@ == rbx_font_parts(font).0,
        rbx_weight_code(parts.1) == rbx_font_parts(font).1,
        rbx_style_code(parts.2) == rbx_font_parts(font).2,
{
    (font.family, font.weight, font.style)
}

impl From<RbxFontWeight> for WeightScale {
    /// The weight with the code of `v`.
    fn from(v: RbxFontWeight) -> (weight: WeightScale)
        ensures
            weight.spec_as_u16() == rbx_weight_code(v),
    {
        match WeightScale::from_u16(v.as_u16()) {
            Some(weight) => weight,
            None => vstd::pervasive::unreached(),
        }
    }
}

impl vstd::std_specs::convert::FromSpecImpl<RbxFontWeight> for WeightScale {
    open spec fn obeys_from_spec() -> bool {
        true
    }

    open spec fn from_spec(v: RbxFontWeight) -> WeightScale {
        WeightScale::spec_from_u16(rbx_weight_code(v)).unwrap()
    }
}

impl From<WeightScale> for RbxFontWeight {
    /// The weight of the document model with the code of `v`.
    fn from(v: WeightScale) -> (weight: RbxFontWeight)
        ensures
            rbx_weight_code(weight) == v.spec_as_u16(),
    {
        match RbxFontWeight::from_u16(v.as_u16()) {
            Some(weight) => weight,
            None => vstd::pervasive::unreached(),
        }
    }
}

impl vstd::std_specs::convert::FromSpecImpl<WeightScale> for RbxFontWeight {
    open spec fn obeys_from_spec() -> bool {
        false
    }

    open spec fn from_spec(v: WeightScale) -> RbxFontWeight {
        choose|weight: RbxFontWeight| rbx_weight_code(weight) == v.spec_as_u16()
    }
}

impl From<RbxFontStyle> for StyleKind {
    /// The style with the code of `v`.
    fn from(v: RbxFontStyle) -> (style: StyleKind)
        ensures
            style.spec_as_u8() == rbx_style_code(v),
    {
        match StyleKind::from_u8(v.as_u8()) {
            Some(style) => style,
            None => vstd::pervasive::unreached(),
        }
    }
}

impl vstd::std_specs::convert::FromSpecImpl<RbxFontStyle> for StyleKind {
    open spec fn obeys_from_spec() -> bool {
        true
    }

    open spec fn from_spec(v: RbxFontStyle) -> StyleKind {
        StyleKind::spec_from_u8(rbx_style_code(v)).unwrap()
    }
}

impl From<StyleKind> for RbxFontStyle {
    /// The style of the document model with the code of `v`.
    fn from(v: StyleKind) -> (style: RbxFontStyle)
        ensures
            rbx_style_code(style) == v.spec_as_u8(),
    {
        match RbxFontStyle::from_u8(v.as_u8()) {
            Some(style) => style,
            None => vstd::pervasive::unreached(),
        }
    }
}

impl vstd::std_specs::convert::FromSpecImpl<StyleKind> for RbxFontStyle {
    open spec fn obeys_from_spec() -> bool {
        false
    }

    open spec fn from_spec(v: StyleKind) -> RbxFontStyle {
        choose|style: RbxFontStyle| rbx_style_code(style) == v.spec_as_u8()
    }
}

/// Whether `outside` is the font of the document model that `font` converts
/// to: it holds the family and the codes of `font`, and no cached face id.
pub open spec fn is_external_form(font: FontView, outside: RbxFont) -> bool {
    rbx_font_parts(outside) == (
        font.family,
        font.weight.spec_as_u16(),
        font.style.spec_as_u8(),
        None::<Seq<char>>,
    )
}

/// Whether `font` is the font that `outside` converts to: it has the family
/// and the codes that `outside` holds.
pub open spec fn is_descriptor_of(outside: RbxFont, font: FontView) -> bool {
    let parts = rbx_font_parts(outside);
    font.codes() == (parts.0, parts.1, parts.2)
}

impl From<RbxFont> for FontDescriptor {
    /// The font with the family and the codes of `v`. The cached face id of
    /// `v` is dropped.
    fn from(v: RbxFont) -> (font: FontDescriptor)
        ensures
            is_descriptor_of(v, font@),
    {
        let (family, weight, style) = rbx_font_into_parts(v);
        FontDescriptor::new(family, WeightScale::from(weight), StyleKind::from(style))
    }
}

impl vstd::std_specs::convert::FromSpecImpl<RbxFont> for FontDescriptor {
    open spec fn obeys_from_spec() -> bool {
        false
    }

    open spec fn from_spec(v: RbxFont) -> FontDescriptor {
        choose|font: FontDescriptor| is_descriptor_of(v, font@)
    }
}

impl From<FontDescriptor> for RbxFont {
    /// The font of the document model with the family and the codes of `v`
    /// and without a cached face id.
    fn from(v: FontDescriptor) -> (font: RbxFont)
        ensures
            is_external_form(v@, font),
    {
        let weight = RbxFontWeight::from(v.weight());
        let style = RbxFontStyle::from(v.style());
        let family = v.family();
        RbxFont::new(family.as_str(), weight, style)
    }
}

impl vstd::std_specs::convert::FromSpecImpl<FontDescriptor> for RbxFont {
    open spec fn obeys_from_spec() -> bool {
        false
    }

    open spec fn from_spec(v: FontDescriptor) -> RbxFont {
        choose|font: RbxFont| is_external_form(v@, font)
    }
}

/// A font that goes to the document model and comes back is the font it
/// was: whenever `font` converts to `outside` and `outside` converts to
/// `back`, `back` equals `font`.
pub proof fn lemma_external_round_trip(font: FontView, outside: RbxFont, back: FontView)
    requires
        is_external_form(font, outside),
        is_descriptor_of(outside, back),
    ensures
        back == font,
{
    WeightScale::lemma_from_code_is_inverse(back.weight.spec_as_u16(), font.weight);
    StyleKind::lemma_from_code_is_inverse(back.style.spec_as_u8(), font.style);
}

/// What a font of the document model converts to is fixed by what the font
/// holds: two results of converting one font are equal.
pub proof fn lemma_descriptor_is_unique(outside: RbxFont, a: FontView, b: FontView)
    requires
        is_descriptor_of(outside, a),
        is_descriptor_of(outside, b),
    ensures
        a == b,
{
    WeightScale::lemma_from_code_is_inverse(a.weight.spec_as_u16(), b.weight);
    StyleKind::lemma_from_code_is_inverse(a.style.spec_as_u8(), b.style);
}

} // verus!
