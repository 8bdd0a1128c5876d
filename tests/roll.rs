use ability_miner::{advance_seed, get_ability, slots_match, Ability, Brand, Slot};

#[test]
fn advance_from_one() {
    let mut s: u32 = 1;
    assert_eq!(advance_seed(&mut s), 270369);
    assert_eq!(s, 0x42021);
}

#[test]
fn advance_wraps() {
    let mut s: u32 = 0xFFFF_FFFF;
    let mut expected: u32 = 0xFFFF_FFFF;
    expected ^= expected << 13;
    expected ^= expected >> 17;
    expected ^= expected << 5;
    assert_eq!(advance_seed(&mut s), expected);
}

#[test]
fn zero_is_a_fixed_point() {
    let mut s: u32 = 0;
    for _ in 0..5 {
        assert_eq!(advance_seed(&mut s), 0);
    }
}

#[test]
fn roll_from_one_without_drink() {
    let mut s: u32 = 1;
    let a = get_ability(&mut s, Brand::B00, None);
    assert_eq!(s, 270369);
    assert_eq!(270369 % 35, 29);
    assert_eq!(a, Brand::B00.weighted_ability(29));
    assert_eq!(a, Ability::OpInkEffect_Reduction);
}

fn after(seed: u32) -> u32 {
    let mut s = seed;
    advance_seed(&mut s)
}

fn seed_with_remainder(rem: u32) -> u32 {
    (1..u32::MAX).find(|&s| after(s) % 100 == rem).unwrap()
}

#[test]
fn drink_procs_at_twenty_nine() {
    let seed = seed_with_remainder(29);
    let mut s = seed;
    let a = get_ability(&mut s, Brand::B03, Some(Ability::Action_Up));
    assert_eq!(a, Ability::Action_Up);
    assert_eq!(s, after(seed));
}

#[test]
fn drink_rerolls_at_thirty() {
    let seed = seed_with_remainder(30);
    let mut s = seed;
    let a = get_ability(&mut s, Brand::B03, Some(Ability::Action_Up));
    let twice = after(after(seed));
    assert_eq!(s, twice);
    let n = Brand::B03.max_num_drink(Ability::Action_Up);
    assert_eq!(a, Brand::B03.weighted_ability_drink(twice % n, Ability::Action_Up));
    assert_ne!(a, Ability::Action_Up);
}

#[test]
fn matching_is_deterministic() {
    let slots = [
        Slot { ability: Ability::SquidMove_Up, drink: None },
        Slot { ability: Ability::HumanMove_Up, drink: Some(Ability::HumanMove_Up) },
    ];
    for seed in [1u32, 7, 12345, 0xDEAD_BEEF] {
        assert_eq!(slots_match(seed, &Brand::B03, &slots), slots_match(seed, &Brand::B03, &slots));
        let (mut s1, mut s2) = (seed, seed);
        for slot in &slots {
            assert_eq!(get_ability(&mut s1, Brand::B03, slot.drink), get_ability(&mut s2, Brand::B03, slot.drink));
            assert_eq!(s1, s2);
        }
    }
}

#[test]
fn simulated_rolls_match_their_seed() {
    let drinks = [None, Some(Ability::SubInk_Save), None, Some(Ability::Action_Up), Some(Ability::SubInk_Save), None];
    for seed in [1u32, 99, 424242, 0x8000_0000, u32::MAX] {
        for brand in [Brand::B00, Brand::B17, Brand::B98] {
            let mut s = seed;
            let slots: Vec<Slot> = drinks
                .iter()
                .map(|&drink| Slot { ability: get_ability(&mut s, brand, drink), drink })
                .collect();
            assert!(slots_match(seed, &brand, &slots));
        }
    }
}

#[test]
fn mismatch_is_rejected() {
    let mut s: u32 = 1;
    let a = get_ability(&mut s, Brand::B00, None);
    let other = if a == Ability::Action_Up { Ability::MainInk_Save } else { Ability::Action_Up };
    assert!(slots_match(1, &Brand::B00, &[Slot { ability: a, drink: None }]));
    assert!(!slots_match(1, &Brand::B00, &[Slot { ability: other, drink: None }]));
    assert!(slots_match(1, &Brand::B00, &[]));
}
