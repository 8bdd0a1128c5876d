use ability_miner::{decode_slot, get_initial_seeds, get_results, mine, slots_match, Ability, Brand, Slot};

fn ink_resistance() -> Vec<Slot> {
    vec![Slot { ability: Ability::OpInkEffect_Reduction, drink: None }]
}

#[test]
fn search_finds_seed_one() {
    let hits = get_results(1, 1000, None, Brand::B00, &ink_resistance());
    assert!(hits.contains(&1));
    assert_eq!(hits[0], 1);
}

#[test]
fn search_returns_exactly_the_matching_seeds_in_order() {
    let slots = vec![
        Slot { ability: Ability::SubInk_Save, drink: None },
        Slot { ability: Ability::InkRecovery_Up, drink: Some(Ability::SubInk_Save) },
    ];
    let hits = get_initial_seeds(0, 200_000, None, Brand::B06, &slots);
    let expected: Vec<u32> = (0..=200_000u32).filter(|&s| slots_match(s, &Brand::B06, &slots)).collect();
    assert!(!expected.is_empty());
    assert_eq!(hits, expected);
    assert_eq!(get_results(0, 200_000, None, Brand::B06, &slots), expected);
}

#[test]
fn cap_keeps_the_first_hits() {
    let all = get_results(1, 1000, None, Brand::B00, &ink_resistance());
    assert!(all.len() >= 20);
    let capped = get_results(1, 1000, Some(5), Brand::B00, &ink_resistance());
    assert_eq!(capped.len(), 5);
    assert_eq!(capped[..], all[..5]);
}

#[test]
fn cap_larger_than_hits_keeps_all() {
    let all = get_results(1, 1000, None, Brand::B00, &ink_resistance());
    assert_eq!(get_results(1, 1000, Some(100_000), Brand::B00, &ink_resistance()), all);
    assert_eq!(get_results(1, 1000, Some(0), Brand::B00, &ink_resistance()), Vec::<u32>::new());
}

#[test]
fn empty_range_and_empty_slots() {
    assert!(get_results(10, 9, None, Brand::B00, &ink_resistance()).is_empty());
    assert_eq!(get_results(5, 9, None, Brand::B00, &[]), vec![5, 6, 7, 8, 9]);
    assert_eq!(get_results(u32::MAX - 2, u32::MAX, None, Brand::B01, &[]), vec![u32::MAX - 2, u32::MAX - 1, u32::MAX]);
}

#[test]
fn packed_slots_decode() {
    assert_eq!(decode_slot(0xFF0B), Slot { ability: Ability::OpInkEffect_Reduction, drink: None });
    assert_eq!(decode_slot(0x0D05), Slot { ability: Ability::SpecialIncrease_Up, drink: Some(Ability::Action_Up) });
    assert_eq!(decode_slot(0x0000), Slot { ability: Ability::MainInk_Save, drink: Some(Ability::MainInk_Save) });
}

#[test]
fn mine_searches_from_zero() {
    assert_eq!(mine(5, 0, &[]), vec![0, 1, 2, 3, 4]);
    let expected = get_results(0, 100_000, Some(3), Brand::B00, &ink_resistance());
    assert_eq!(expected.len(), 3);
    assert_eq!(mine(3, 0, &[0xFF0B]), expected);
}
