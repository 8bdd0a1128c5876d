use ability_miner::{Ability, Brand, MyOption};

#[test]
fn ability_names_round_trip() {
    for i in 0..14 {
        let a = Ability::from_usize(i);
        assert_eq!(a.ordinal(), i);
        assert_eq!(Ability::from_name(a.internal_name()), Some(a));
    }
    assert_eq!(Ability::from_usize(0), Ability::MainInk_Save);
    assert_eq!(Ability::from_usize(13), Ability::Action_Up);
    assert_eq!(Ability::from_name("OpInkEffect_Reduction"), Some(Ability::OpInkEffect_Reduction));
}

#[test]
fn ability_names_are_case_sensitive() {
    assert_eq!(Ability::from_name("mainink_save"), None);
    assert_eq!(Ability::from_name(""), None);
    assert_eq!(Ability::from_name("MainInk_Save "), None);
}

#[test]
fn legacy_names_differ_only_where_renamed() {
    for i in 0..14 {
        let a = Ability::from_usize(i);
        if i == 7 || i == 10 {
            assert_ne!(a.internal_name(), a.legacy_internal_name());
        } else {
            assert_eq!(a.internal_name(), a.legacy_internal_name());
        }
    }
    assert_eq!(Ability::SpecialSpec_Up.legacy_internal_name(), "SpecialTime_Up");
    assert_eq!(Ability::SubSpec_Up.legacy_internal_name(), "BombDistance_Up");
}

#[test]
fn display_names() {
    assert_eq!(Ability::MainInk_Save.display_name(), "Ink Saver (Main)");
    assert_eq!(Ability::SubSpec_Up.display_name(), "Sub Power Up");
    assert_eq!(Ability::Action_Up.display_name(), "Intensify Action");
}

#[test]
fn brand_names_round_trip() {
    let names = [
        "B00", "B01", "B02", "B03", "B04", "B05", "B06", "B07", "B08", "B09", "B10", "B11", "B15",
        "B16", "B17", "B18", "B19", "B20", "B97", "B98", "B99", "None",
    ];
    for (i, name) in names.iter().enumerate() {
        let b = Brand::from_usize(i);
        assert_eq!(b.ordinal(), i);
        assert_eq!(b.internal_name(), *name);
        assert_eq!(Brand::from_name(name), Some(b));
    }
    assert_eq!(Brand::from_name("None"), Some(Brand::NoBrand));
}

#[test]
fn absent_brand_codes_are_rejected() {
    assert_eq!(Brand::from_name("B12"), None);
    assert_eq!(Brand::from_name("B14"), None);
    assert_eq!(Brand::from_name("b00"), None);
}

#[test]
fn my_option_into_option() {
    assert_eq!(MyOption::Value(Brand::B05).into_option(), Some(Brand::B05));
    assert_eq!(MyOption::<Brand>::Nothing.into_option(), None);
}
