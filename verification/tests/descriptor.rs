use lune_fonts::error::FontError;
use lune_fonts::family::{EnumFamily, EnumItem};
use lune_fonts::font::FontDescriptor;
use lune_fonts::style::StyleKind;
use lune_fonts::weight::WeightScale;

fn arial(weight: WeightScale) -> FontDescriptor {
    FontDescriptor::new("Arial".to_string(), weight, StyleKind::Normal)
}

#[test]
fn direct_construction_keeps_every_field() {
    let font = FontDescriptor::new("".to_string(), WeightScale::Light, StyleKind::Italic);
    assert_eq!(font.family(), "");
    assert_eq!(font.weight(), WeightScale::Light);
    assert_eq!(font.style(), StyleKind::Italic);
}

#[test]
fn bold_follows_the_weight_code() {
    let bold = [
        WeightScale::SemiBold,
        WeightScale::Bold,
        WeightScale::ExtraBold,
        WeightScale::Heavy,
    ];
    let plain = [
        WeightScale::Thin,
        WeightScale::ExtraLight,
        WeightScale::Light,
        WeightScale::Regular,
        WeightScale::Medium,
    ];
    for weight in bold {
        assert!(arial(weight).bold());
    }
    for weight in plain {
        assert!(!arial(weight).bold());
    }
}

#[test]
fn clearing_bold_gives_regular() {
    let mut font = arial(WeightScale::Bold);
    assert!(font.bold());
    font.set_bold(false);
    assert_eq!(font.weight(), WeightScale::Regular);
    assert!(!font.bold());
}

#[test]
fn setting_bold_discards_the_weight() {
    let mut font = arial(WeightScale::Heavy);
    font.set_bold(true);
    assert_eq!(font.weight(), WeightScale::Bold);
    let mut font = arial(WeightScale::Thin);
    font.set_bold(false);
    assert_eq!(font.weight(), WeightScale::Regular);
    assert_eq!(font.family(), "Arial");
    assert_eq!(font.style(), StyleKind::Normal);
}

#[test]
fn set_weight_accepts_a_weight_enumerator() {
    let mut font = arial(WeightScale::Regular);
    let done = font.set_weight(&EnumItem::new(EnumFamily::FontWeight, "ExtraBold"));
    assert_eq!(done, Ok(()));
    assert_eq!(font.weight(), WeightScale::ExtraBold);
    assert_eq!(font.style(), StyleKind::Normal);
    assert_eq!(font.family(), "Arial");
}

#[test]
fn set_weight_rejects_a_style_enumerator() {
    let mut font = arial(WeightScale::Medium);
    let done = font.set_weight(&EnumItem::new(EnumFamily::FontStyle, "Italic"));
    assert_eq!(
        done,
        Err(FontError::WrongEnumerationFamily {
            expected: EnumFamily::FontWeight,
            actual: EnumFamily::FontStyle,
        })
    );
    assert_eq!(font, arial(WeightScale::Medium));
}

#[test]
fn set_weight_rejects_a_foreign_enumerator_by_name() {
    let mut font = arial(WeightScale::Medium);
    let item = EnumItem::new(EnumFamily::from_name("Material"), "Bold");
    match font.set_weight(&item) {
        Err(FontError::WrongEnumerationFamily { expected, actual }) => {
            assert_eq!(expected.name(), "FontWeight");
            assert_eq!(actual.name(), "Material");
        }
        other => panic!("unexpected result {:?}", other),
    }
    assert_eq!(font.weight(), WeightScale::Medium);
}

#[test]
fn set_weight_rejects_an_unknown_name() {
    let mut font = arial(WeightScale::Medium);
    let done = font.set_weight(&EnumItem::new(EnumFamily::FontWeight, "Chunky"));
    assert_eq!(
        done,
        Err(FontError::NotFound { family: EnumFamily::FontWeight, name: "Chunky".to_string() })
    );
    assert_eq!(font.weight(), WeightScale::Medium);
}

#[test]
fn set_style_checks_the_family_and_the_name() {
    let mut font = arial(WeightScale::Regular);
    assert_eq!(font.set_style(&EnumItem::new(EnumFamily::FontStyle, "Italic")), Ok(()));
    assert_eq!(font.style(), StyleKind::Italic);
    assert_eq!(
        font.set_style(&EnumItem::new(EnumFamily::FontWeight, "Bold")),
        Err(FontError::WrongEnumerationFamily {
            expected: EnumFamily::FontStyle,
            actual: EnumFamily::FontWeight,
        })
    );
    assert_eq!(
        font.set_style(&EnumItem::new(EnumFamily::FontStyle, "Slanted")),
        Err(FontError::NotFound { family: EnumFamily::FontStyle, name: "Slanted".to_string() })
    );
    assert_eq!(font.style(), StyleKind::Italic);
    assert_eq!(font.weight(), WeightScale::Regular);
}

#[test]
fn getters_expose_named_enumerators() {
    let font = FontDescriptor::new("Arial".to_string(), WeightScale::SemiBold, StyleKind::Italic);
    assert_eq!(font.weight_item(), EnumItem::new(EnumFamily::FontWeight, "SemiBold"));
    assert_eq!(font.style_item(), EnumItem::new(EnumFamily::FontStyle, "Italic"));
}

#[test]
fn enumerators_from_getters_are_accepted_by_setters() {
    let source = FontDescriptor::new("A".to_string(), WeightScale::Heavy, StyleKind::Italic);
    let mut target = FontDescriptor::new("A".to_string(), WeightScale::Thin, StyleKind::Normal);
    assert_eq!(target.set_weight(&source.weight_item()), Ok(()));
    assert_eq!(target.set_style(&source.style_item()), Ok(()));
    assert_eq!(target, source);
}

#[test]
fn display_form_is_comma_separated() {
    let font = FontDescriptor::new(
        "rbxasset://fonts/families/Arial.json".to_string(),
        WeightScale::ExtraLight,
        StyleKind::Italic,
    );
    assert_eq!(font.to_string(), "rbxasset://fonts/families/Arial.json, ExtraLight, Italic");
    assert_eq!(arial(WeightScale::Regular).to_string(), "Arial, Regular, Normal");
}

#[test]
fn equality_is_fieldwise_and_case_sensitive() {
    assert_eq!(arial(WeightScale::Bold), arial(WeightScale::Bold));
    assert_ne!(arial(WeightScale::Bold), arial(WeightScale::Regular));
    let lower = FontDescriptor::new("arial".to_string(), WeightScale::Bold, StyleKind::Normal);
    assert_ne!(arial(WeightScale::Bold), lower);
    let italic = FontDescriptor::new("Arial".to_string(), WeightScale::Bold, StyleKind::Italic);
    assert_ne!(arial(WeightScale::Bold), italic);
    assert_eq!(italic.clone(), italic);
}

#[test]
fn family_names_map_to_tags() {
    assert_eq!(EnumFamily::from_name("Font"), EnumFamily::Font);
    assert_eq!(EnumFamily::from_name("FontWeight"), EnumFamily::FontWeight);
    assert_eq!(EnumFamily::from_name("FontStyle"), EnumFamily::FontStyle);
    assert_eq!(EnumFamily::from_name("fontweight"), EnumFamily::Other("fontweight".to_string()));
    for name in ["Font", "FontWeight", "FontStyle", "Material"] {
        assert_eq!(EnumFamily::from_name(name).name(), name);
    }
}

#[test]
fn codes_round_trip() {
    for code in [100u16, 200, 300, 400, 500, 600, 700, 800, 900] {
        for style in [0u8, 1] {
            let font = FontDescriptor::from_codes("Test".to_string(), code, style).unwrap();
            assert_eq!(font.clone().into_codes(), ("Test".to_string(), code, style));
            let (family, weight, kind) = font.clone().into_codes();
            assert_eq!(FontDescriptor::from_codes(family, weight, kind), Ok(font));
        }
    }
}

#[test]
fn invalid_codes_are_integrity_violations() {
    assert_eq!(
        FontDescriptor::from_codes("Test".to_string(), 450, 0),
        Err(FontError::IntegrityViolation { family: EnumFamily::FontWeight, code: 450 })
    );
    assert_eq!(
        FontDescriptor::from_codes("Test".to_string(), 400, 2),
        Err(FontError::IntegrityViolation { family: EnumFamily::FontStyle, code: 2 })
    );
    assert_eq!(
        FontDescriptor::from_codes("Test".to_string(), 0, 9),
        Err(FontError::IntegrityViolation { family: EnumFamily::FontWeight, code: 0 })
    );
    assert_eq!(
        WeightScale::from_external_code(1000),
        Err(FontError::IntegrityViolation { family: EnumFamily::FontWeight, code: 1000 })
    );
    assert_eq!(WeightScale::from_external_code(900), Ok(WeightScale::Heavy));
    assert_eq!(
        StyleKind::from_external_code(255),
        Err(FontError::IntegrityViolation { family: EnumFamily::FontStyle, code: 255 })
    );
    assert_eq!(StyleKind::from_external_code(1), Ok(StyleKind::Italic));
}

#[test]
fn family_tags_survive_their_names() {
    let families = [
        EnumFamily::Font,
        EnumFamily::FontWeight,
        EnumFamily::FontStyle,
        EnumFamily::Other("Material".to_string()),
        EnumFamily::Other("".to_string()),
    ];
    for family in families {
        assert_eq!(EnumFamily::from_name(&family.name()), family);
        assert_eq!(family.clone(), family);
    }
}
