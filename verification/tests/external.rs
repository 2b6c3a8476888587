use lune_fonts::font::FontDescriptor;
use lune_fonts::style::StyleKind;
use lune_fonts::weight::WeightScale;
use rbx_dom_weak::types::{Font, FontStyle, FontWeight};

fn weight_pairs() -> Vec<(WeightScale, FontWeight)> {
    vec![
        (WeightScale::Thin, FontWeight::Thin),
        (WeightScale::ExtraLight, FontWeight::ExtraLight),
        (WeightScale::Light, FontWeight::Light),
        (WeightScale::Regular, FontWeight::Regular),
        (WeightScale::Medium, FontWeight::Medium),
        (WeightScale::SemiBold, FontWeight::SemiBold),
        (WeightScale::Bold, FontWeight::Bold),
        (WeightScale::ExtraBold, FontWeight::ExtraBold),
        (WeightScale::Heavy, FontWeight::Heavy),
    ]
}

#[test]
fn weights_convert_both_ways() {
    for (ours, theirs) in weight_pairs() {
        assert_eq!(FontWeight::from(ours), theirs);
        assert_eq!(WeightScale::from(theirs), ours);
        assert_eq!(ours.as_u16(), theirs.as_u16());
    }
}

#[test]
fn styles_convert_both_ways() {
    assert_eq!(FontStyle::from(StyleKind::Normal), FontStyle::Normal);
    assert_eq!(FontStyle::from(StyleKind::Italic), FontStyle::Italic);
    assert_eq!(StyleKind::from(FontStyle::Normal), StyleKind::Normal);
    assert_eq!(StyleKind::from(FontStyle::Italic), StyleKind::Italic);
}

#[test]
fn font_converts_to_the_document_model() {
    let font = FontDescriptor::new("Test".to_string(), WeightScale::ExtraBold, StyleKind::Italic);
    let outside = Font::from(font);
    assert_eq!(outside.family, "Test");
    assert_eq!(outside.weight, FontWeight::ExtraBold);
    assert_eq!(outside.weight.as_u16(), 800);
    assert_eq!(outside.style, FontStyle::Italic);
    assert_eq!(outside.style.as_u8(), 1);
    assert_eq!(outside.cached_face_id, None);
}

#[test]
fn font_converts_from_the_document_model() {
    let outside = Font {
        family: "rbxasset://fonts/families/Ubuntu.json".to_string(),
        weight: FontWeight::Light,
        style: FontStyle::Italic,
        cached_face_id: Some("face".to_string()),
    };
    let font = FontDescriptor::from(outside);
    assert_eq!(font.family(), "rbxasset://fonts/families/Ubuntu.json");
    assert_eq!(font.weight(), WeightScale::Light);
    assert_eq!(font.style(), StyleKind::Italic);
}

#[test]
fn conversion_round_trip() {
    let font = FontDescriptor::new("Test".to_string(), WeightScale::ExtraBold, StyleKind::Italic);
    let back = FontDescriptor::from(Font::from(font.clone()));
    assert_eq!(back, font);
}

#[test]
fn conversion_round_trip_for_every_weight_and_style() {
    for (weight, _) in weight_pairs() {
        for style in [StyleKind::Normal, StyleKind::Italic] {
            let font = FontDescriptor::new("Family".to_string(), weight, style);
            let outside: Font = font.clone().into();
            let back: FontDescriptor = outside.into();
            assert_eq!(back, font);
        }
    }
}
