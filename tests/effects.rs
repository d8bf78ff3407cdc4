use magi96_keyboard::rgb::{HsvColor, RgbEffect};

fn code_of(name: &str) -> Option<u8> {
    RgbEffect::from_name(name).map(|e| e.code())
}

#[test]
fn every_alias_resolves_to_its_firmware_code() {
    let table: Vec<(&str, u8)> = vec![
        ("off", 0),
        ("wave", 1),
        ("colourcloud", 2),
        ("colour_cloud", 2),
        ("color_cloud", 2),
        ("vortex", 3),
        ("mixcolour", 4),
        ("mix_colour", 4),
        ("mix_color", 4),
        ("breathe", 5),
        ("light", 6),
        ("slowlyoff", 7),
        ("slowly_off", 7),
        ("stone", 8),
        ("laser", 9),
        ("starry", 10),
        ("flowersopen", 11),
        ("flowers_open", 11),
        ("traverse", 12),
        ("wavebar", 13),
        ("wave_bar", 13),
        ("meteor", 14),
        ("rain", 15),
        ("scan", 16),
        ("triggercolour", 17),
        ("trigger_colour", 17),
        ("trigger_color", 17),
        ("centerspread", 18),
        ("center_spread", 18),
    ];
    for (alias, code) in table {
        assert_eq!(code_of(alias), Some(code), "alias {}", alias);
    }
}

#[test]
fn documented_examples_resolve() {
    assert_eq!(RgbEffect::from_name("wave"), Some(RgbEffect::Wave));
    assert_eq!(RgbEffect::from_name("vortex"), Some(RgbEffect::Vortex));
    assert_eq!(RgbEffect::from_name("center_spread"), Some(RgbEffect::CenterSpread));
    assert_eq!(RgbEffect::from_name("centerspread"), Some(RgbEffect::CenterSpread));
    assert_eq!(code_of("vortex"), Some(3));
    assert_eq!(code_of("center_spread"), Some(18));
}

#[test]
fn lookup_ignores_case() {
    assert_eq!(RgbEffect::from_name("WAVE"), Some(RgbEffect::Wave));
    assert_eq!(RgbEffect::from_name("Wave"), Some(RgbEffect::Wave));
    assert_eq!(RgbEffect::from_name("wave"), Some(RgbEffect::Wave));
    assert_eq!(RgbEffect::from_name("Center_Spread"), Some(RgbEffect::CenterSpread));
    assert_eq!(RgbEffect::from_name("MIX_COLOR"), Some(RgbEffect::MixColour));
}

#[test]
fn lowercase_lookup_is_exact() {
    assert_eq!(RgbEffect::from_lowercase_name("wave"), Some(RgbEffect::Wave));
    assert_eq!(RgbEffect::from_lowercase_name("WAVE"), None);
}

#[test]
fn unknown_names_are_not_found() {
    assert_eq!(RgbEffect::from_name("sparkle"), None);
    assert_eq!(RgbEffect::from_name(""), None);
    assert_eq!(RgbEffect::from_name("wav"), None);
    assert_eq!(RgbEffect::from_name("wave "), None);
    assert_eq!(RgbEffect::from_name("center spread"), None);
}

#[test]
fn all_lists_every_code_once_in_order() {
    let all = RgbEffect::all();
    assert_eq!(all.len(), 19);
    for (i, e) in all.iter().enumerate() {
        assert_eq!(e.code() as usize, i);
    }
    assert_eq!(all[0], RgbEffect::Off);
    assert_eq!(all[18], RgbEffect::CenterSpread);
    assert_eq!(RgbEffect::all(), all);
}

#[test]
fn identifiers_round_trip() {
    for e in RgbEffect::all() {
        assert_eq!(RgbEffect::from_name(e.identifier()), Some(e));
    }
    assert_eq!(RgbEffect::ColourCloud.identifier(), "colourcloud");
}

#[test]
fn display_names_use_uk_spelling() {
    assert_eq!(RgbEffect::ColourCloud.display_name(), "Colour Cloud");
    assert_eq!(RgbEffect::MixColour.display_name(), "Mix Colour");
    assert_eq!(RgbEffect::TriggerColour.display_name(), "Trigger Colour");
    assert_eq!(RgbEffect::CenterSpread.display_name(), "Center Spread");
    assert_eq!(RgbEffect::Off.display_name(), "Off");
}

#[test]
fn hsv_color_keeps_its_components() {
    let c = HsvColor::new(10, 20, 30);
    assert_eq!(c.hue, 10);
    assert_eq!(c.saturation, 20);
    assert_eq!(c.value, 30);
    let top = HsvColor::new(255, 0, 255);
    assert_eq!(top, HsvColor { hue: 255, saturation: 0, value: 255 });
}
