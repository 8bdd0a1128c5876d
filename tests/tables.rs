use ability_miner::{Ability, Brand};

fn is_generic(b: Brand) -> bool {
    matches!(b, Brand::B97 | Brand::B98 | Brand::B99 | Brand::NoBrand)
}

#[test]
fn weights_sum_to_total() {
    for i in 0..22 {
        let b = Brand::from_usize(i);
        let sum: u32 = b.weight_vector().iter().sum();
        assert_eq!(sum, b.max_num());
        assert_eq!(b.max_num(), if is_generic(b) { 28 } else { 35 });
    }
}

#[test]
fn flat_table_holds_each_ability_by_weight() {
    for i in 0..22 {
        let b = Brand::from_usize(i);
        let weights = b.weight_vector();
        let mut counts = [0u32; 14];
        let mut last = 0usize;
        for roll in 0..b.max_num() {
            let a = b.weighted_ability(roll);
            assert!(a.ordinal() >= last);
            last = a.ordinal();
            counts[a.ordinal()] += 1;
        }
        assert_eq!(counts.to_vec(), weights);
    }
}

#[test]
fn weight_vector_shape() {
    for i in 0..22 {
        let b = Brand::from_usize(i);
        let w = b.weight_vector();
        assert_eq!(w.len(), 14);
        if is_generic(b) {
            assert!(w.iter().all(|&x| x == 2));
        } else {
            assert_eq!(w.iter().filter(|&&x| x == 1).count(), 1);
            assert_eq!(w.iter().filter(|&&x| x == 10).count(), 1);
            assert_eq!(w.iter().filter(|&&x| x == 2).count(), 12);
        }
        for a in 0..14 {
            assert_eq!(b.ability_weight(Ability::from_usize(a)), w[a]);
        }
    }
    let w = Brand::B00.weight_vector();
    assert_eq!(w[Ability::MainInk_Save.ordinal()], 1);
    assert_eq!(w[Ability::OpInkEffect_Reduction.ordinal()], 10);
}

#[test]
fn drink_table_leaves_out_the_drink() {
    for i in 0..22 {
        let b = Brand::from_usize(i);
        for d in 0..14 {
            let drink = Ability::from_usize(d);
            let n = b.max_num_drink(drink);
            assert_eq!(n, b.max_num() - b.ability_weight(drink));
            let mut counts = [0u32; 14];
            for roll in 0..n {
                let a = b.weighted_ability_drink(roll, drink);
                assert_ne!(a, drink);
                counts[a.ordinal()] += 1;
            }
            let mut expected = b.weight_vector();
            expected[d] = 0;
            assert_eq!(counts.to_vec(), expected);
        }
    }
}

#[test]
fn flat_table_b00_entries() {
    let b = Brand::B00;
    assert_eq!(b.weighted_ability(0), Ability::MainInk_Save);
    assert_eq!(b.weighted_ability(1), Ability::SubInk_Save);
    assert_eq!(b.weighted_ability(20), Ability::SubSpec_Up);
    assert_eq!(b.weighted_ability(21), Ability::OpInkEffect_Reduction);
    assert_eq!(b.weighted_ability(30), Ability::OpInkEffect_Reduction);
    assert_eq!(b.weighted_ability(31), Ability::SubEffect_Reduction);
    assert_eq!(b.weighted_ability(34), Ability::Action_Up);
    assert_eq!(b.get_ability(29 + 35 * 3), Ability::OpInkEffect_Reduction);
    // Without the main ink saver every later entry moves down by one.
    assert_eq!(b.weighted_ability_drink(0, Ability::MainInk_Save), Ability::SubInk_Save);
    assert_eq!(b.max_num_drink(Ability::MainInk_Save), 34);
    assert_eq!(b.get_ability_drink(34, Ability::MainInk_Save), Ability::SubInk_Save);
    assert_eq!(b.max_num_drink(Ability::OpInkEffect_Reduction), 25);
    assert_eq!(Brand::B99.max_num_drink(Ability::Action_Up), 26);
}
