use lune_fonts::style::StyleKind;
use lune_fonts::weight::WeightScale;

fn all_weights() -> Vec<(WeightScale, u16, &'static str)> {
    vec![
        (WeightScale::Thin, 100, "Thin"),
        (WeightScale::ExtraLight, 200, "ExtraLight"),
        (WeightScale::Light, 300, "Light"),
        (WeightScale::Regular, 400, "Regular"),
        (WeightScale::Medium, 500, "Medium"),
        (WeightScale::SemiBold, 600, "SemiBold"),
        (WeightScale::Bold, 700, "Bold"),
        (WeightScale::ExtraBold, 800, "ExtraBold"),
        (WeightScale::Heavy, 900, "Heavy"),
    ]
}

#[test]
fn weight_codes_are_exact() {
    for (weight, code, _) in all_weights() {
        assert_eq!(weight.as_u16(), code);
        assert_eq!(WeightScale::from_u16(code), Some(weight));
    }
}

#[test]
fn weight_code_round_trip() {
    for (weight, _, _) in all_weights() {
        assert_eq!(WeightScale::from_u16(weight.as_u16()), Some(weight));
    }
}

#[test]
fn weight_name_round_trip() {
    for (weight, _, name) in all_weights() {
        assert_eq!(weight.name(), name);
        assert_eq!(weight.to_string(), name);
        assert_eq!(WeightScale::from_name(weight.name()), Some(weight));
        assert_eq!(name.parse::<WeightScale>(), Ok(weight));
    }
}

#[test]
fn weight_rejects_other_codes() {
    let mut valid = 0;
    for code in 0..=u16::MAX {
        if WeightScale::from_u16(code).is_some() {
            valid += 1;
        }
    }
    assert_eq!(valid, 9);
    assert_eq!(WeightScale::from_u16(0), None);
    assert_eq!(WeightScale::from_u16(99), None);
    assert_eq!(WeightScale::from_u16(150), None);
    assert_eq!(WeightScale::from_u16(1000), None);
}

#[test]
fn weight_rejects_other_names() {
    assert_eq!(WeightScale::from_name(""), None);
    assert_eq!(WeightScale::from_name("bold"), None);
    assert_eq!(WeightScale::from_name("Bold "), None);
    assert_eq!(WeightScale::from_name("Semibold"), None);
    assert_eq!(WeightScale::from_name("Italic"), None);
    assert_eq!(WeightScale::parse("Black"), Err("Unknown FontWeight"));
    assert_eq!("".parse::<WeightScale>(), Err("Unknown FontWeight"));
}

#[test]
fn style_codes_are_exact() {
    assert_eq!(StyleKind::Normal.as_u8(), 0);
    assert_eq!(StyleKind::Italic.as_u8(), 1);
    assert_eq!(StyleKind::from_u8(0), Some(StyleKind::Normal));
    assert_eq!(StyleKind::from_u8(1), Some(StyleKind::Italic));
}

#[test]
fn style_round_trips() {
    for style in [StyleKind::Normal, StyleKind::Italic] {
        assert_eq!(StyleKind::from_u8(style.as_u8()), Some(style));
        assert_eq!(StyleKind::from_name(style.name()), Some(style));
        assert_eq!(style.to_string().parse::<StyleKind>(), Ok(style));
    }
    assert_eq!(StyleKind::Normal.name(), "Normal");
    assert_eq!(StyleKind::Italic.name(), "Italic");
}

#[test]
fn style_rejects_other_inputs() {
    for code in 2..=u8::MAX {
        assert_eq!(StyleKind::from_u8(code), None);
    }
    assert_eq!(StyleKind::from_name("italic"), None);
    assert_eq!(StyleKind::from_name("Oblique"), None);
    assert_eq!(StyleKind::from_name("Regular"), None);
    assert_eq!(StyleKind::parse("Oblique"), Err("Unknown FontStyle"));
}
