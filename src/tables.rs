//! Per-brand weights and the flattened outcome tables they expand into.
use vstd::prelude::*;
use crate::catalog::{ability_at, ability_ord, lemma_ability_ord, Ability, Brand, NUM_ABILITIES};

verus! {

/// The brand's (unusual, usual) ability pair; the generic brands have none.
pub open spec fn brand_pair(b: Brand) -> Option<(Ability, Ability)> {
    match b {
        Brand::B00 => Some((Ability::MainInk_Save, Ability::OpInkEffect_Reduction)),
        Brand::B01 => Some((Ability::RespawnTime_Save, Ability::JumpTime_Save)),
        Brand::B02 => Some((Ability::SubEffect_Reduction, Ability::SquidMove_Up)),
        Brand::B03 => Some((Ability::SquidMove_Up, Ability::HumanMove_Up)),
        Brand::B04 => Some((Ability::SpecialIncrease_Up, Ability::RespawnSpecialGauge_Save)),
        Brand::B05 => Some((Ability::SubInk_Save, Ability::SpecialSpec_Up)),
        Brand::B06 => Some((Ability::InkRecovery_Up, Ability::SubInk_Save)),
        Brand::B07 => Some((Ability::RespawnSpecialGauge_Save, Ability::RespawnTime_Save)),
        Brand::B08 => Some((Ability::HumanMove_Up, Ability::MainInk_Save)),
        Brand::B09 => Some((Ability::Action_Up, Ability::SubEffect_Reduction)),
        Brand::B10 => Some((Ability::JumpTime_Save, Ability::InkRecovery_Up)),
        Brand::B11 => Some((Ability::SpecialSpec_Up, Ability::SpecialIncrease_Up)),
        Brand::B15 => Some((Ability::RespawnSpecialGauge_Save, Ability::SubInk_Save)),
        Brand::B16 => Some((Ability::OpInkEffect_Reduction, Ability::SubSpec_Up)),
        Brand::B17 => Some((Ability::SubSpec_Up, Ability::MainInk_Save)),
        Brand::B18 => Some((Ability::InkRecovery_Up, Ability::RespawnSpecialGauge_Save)),
        Brand::B19 => Some((Ability::SubSpec_Up, Ability::Action_Up)),
        Brand::B20 => Some((Ability::SpecialIncrease_Up, Ability::Action_Up)),
        _ => None,
    }
}

/// A generic brand draws every ability with the same weight.
pub open spec fn is_generic(b: Brand) -> bool {
    brand_pair(b) is None
}

/// The weight of ability `a` for brand `b`: 1 for the unusual ability, 10 for the
/// usual one, 2 for every other.
pub open spec fn weight(b: Brand, a: Ability) -> nat {
    match brand_pair(b) {
        None => 2,
        Some((unusual, usual)) => if a == usual {
            10
        } else if a == unusual {
            1
        } else {
            2
        },
    }
}

/// The weight of `a` in the pool from which `skip`, if any, has been taken out.
pub open spec fn pool_weight(b: Brand, skip: Option<Ability>, a: Ability) -> nat {
    if skip == Some(a) {
        0
    } else {
        weight(b, a)
    }
}

/// Sum of the pool weights of the first `k` abilities.
pub open spec fn pool_prefix(b: Brand, skip: Option<Ability>, k: nat) -> nat
    decreases k,
{
    if k == 0 {
        0
    } else {
        pool_prefix(b, skip, (k - 1) as nat) + pool_weight(b, skip, ability_at(k - 1))
    }
}

/// The first `k` abilities, each repeated as many times as its pool weight, in
/// ascending ordinal order.
pub open spec fn expand(b: Brand, skip: Option<Ability>, k: nat) -> Seq<Ability>
    decreases k,
{
    if k == 0 {
        Seq::empty()
    } else {
        let a = ability_at(k - 1);
        expand(b, skip, (k - 1) as nat) + Seq::new(pool_weight(b, skip, a), |_j: int| a)
    }
}

/// The sum of the brand's weights: the modulus of a roll without a drink.
pub open spec fn total_weight(b: Brand) -> nat {
    pool_prefix(b, None, NUM_ABILITIES as nat)
}

/// The brand's outcome table without a drink.
pub open spec fn flat_table(b: Brand) -> Seq<Ability> {
    expand(b, None, NUM_ABILITIES as nat)
}

/// The brand's outcome table with the drink ability left out.
pub open spec fn drink_table(drink: Ability, b: Brand) -> Seq<Ability> {
    expand(b, Some(drink), NUM_ABILITIES as nat)
}

proof fn lemma_expand_len(b: Brand, skip: Option<Ability>, k: nat)
    ensures
        expand(b, skip, k).len() == pool_prefix(b, skip, k),
    decreases k,
{
    if k > 0 {
        lemma_expand_len(b, skip, (k - 1) as nat);
    }
}

proof fn lemma_expand_extends(b: Brand, skip: Option<Ability>, k: nat, k2: nat, j: int)
    requires
        k <= k2,
        0 <= j < pool_prefix(b, skip, k),
    ensures
        expand(b, skip, k2)[j] == expand(b, skip, k)[j],
    decreases k2,
{
    if k < k2 {
        lemma_expand_extends(b, skip, k, (k2 - 1) as nat, j);
        lemma_expand_len(b, skip, (k2 - 1) as nat);
        lemma_prefix_monotonic(b, skip, k, (k2 - 1) as nat);
    }
}

proof fn lemma_prefix_monotonic(b: Brand, skip: Option<Ability>, k: nat, k2: nat)
    requires
        k <= k2,
    ensures
        pool_prefix(b, skip, k) <= pool_prefix(b, skip, k2),
    decreases k2,
{
    if k < k2 {
        lemma_prefix_monotonic(b, skip, k, (k2 - 1) as nat);
    }
}

/// The entries of a table from `pool_prefix(i)` up to `pool_prefix(i + 1)` are
/// ability `i`.
proof fn lemma_expand_at(b: Brand, skip: Option<Ability>, i: nat, j: int)
    requires
        i < NUM_ABILITIES,
        pool_prefix(b, skip, i) <= j < pool_prefix(b, skip, i + 1),
    ensures
        expand(b, skip, NUM_ABILITIES as nat)[j] == ability_at(i as int),
{
    lemma_expand_extends(b, skip, i + 1, NUM_ABILITIES as nat, j);
    lemma_expand_len(b, skip, i);
}

/// Taking the drink out of the pool removes exactly its weight.
proof fn lemma_drink_prefix(b: Brand, drink: Ability, k: nat)
    requires
        k <= NUM_ABILITIES,
    ensures
        pool_prefix(b, Some(drink), k) + (if ability_ord(drink) < k {
            weight(b, drink)
        } else {
            0
        }) == pool_prefix(b, None, k),
    decreases k,
{
    lemma_ability_ord(drink, (k - 1) as int);
    if k > 0 {
        lemma_drink_prefix(b, drink, (k - 1) as nat);
    }
}

proof fn lemma_total_weight(b: Brand)
    ensures
        total_weight(b) == if is_generic(b) {
            28nat
        } else {
            35nat
        },
{
    reveal_with_fuel(pool_prefix, 15);
}

impl Brand {
    /// The (unusual, usual) ability pair, absent for the generic brands.
    fn pair(&self) -> (r: Option<(Ability, Ability)>)
        ensures
            r == brand_pair(*self),
    {
        match self {
            Brand::B00 => Some((Ability::MainInk_Save, Ability::OpInkEffect_Reduction)),
            Brand::B01 => Some((Ability::RespawnTime_Save, Ability::JumpTime_Save)),
            Brand::B02 => Some((Ability::SubEffect_Reduction, Ability::SquidMove_Up)),
            Brand::B03 => Some((Ability::SquidMove_Up, Ability::HumanMove_Up)),
            Brand::B04 => Some((Ability::SpecialIncrease_Up, Ability::RespawnSpecialGauge_Save)),
            Brand::B05 => Some((Ability::SubInk_Save, Ability::SpecialSpec_Up)),
            Brand::B06 => Some((Ability::InkRecovery_Up, Ability::SubInk_Save)),
            Brand::B07 => Some((Ability::RespawnSpecialGauge_Save, Ability::RespawnTime_Save)),
            Brand::B08 => Some((Ability::HumanMove_Up, Ability::MainInk_Save)),
            Brand::B09 => Some((Ability::Action_Up, Ability::SubEffect_Reduction)),
            Brand::B10 => Some((Ability::JumpTime_Save, Ability::InkRecovery_Up)),
            Brand::B11 => Some((Ability::SpecialSpec_Up, Ability::SpecialIncrease_Up)),
            Brand::B15 => Some((Ability::RespawnSpecialGauge_Save, Ability::SubInk_Save)),
            Brand::B16 => Some((Ability::OpInkEffect_Reduction, Ability::SubSpec_Up)),
            Brand::B17 => Some((Ability::SubSpec_Up, Ability::MainInk_Save)),
            Brand::B18 => Some((Ability::InkRecovery_Up, Ability::RespawnSpecialGauge_Save)),
            Brand::B19 => Some((Ability::SubSpec_Up, Ability::Action_Up)),
            Brand::B20 => Some((Ability::SpecialIncrease_Up, Ability::Action_Up)),
            _ => None,
        }
    }

    /// Number of outcome slots without a drink: the sum of the weights.
    #[must_use]
    pub fn max_num(&self) -> (r: u32)
        ensures
            r == total_weight(*self),
            r == flat_table(*self).len(),
    {
        proof {
            lemma_total_weight(*self);
            lemma_expand_len(*self, None, NUM_ABILITIES as nat);
        }
        match self {
            Brand::B97 | Brand::B98 | Brand::B99 | Brand::NoBrand => 28,
            _ => 35,
        }
    }
    /// The weight of ability `a` for this brand.
    #[must_use]
    pub fn ability_weight(&self, a: Ability) -> (r: u32)
        ensures
            r == weight(*self, a),
    {
        match self.pair() {
            None => 2,
            Some((unusual, usual)) => if a == usual {
                10
            } else if a == unusual {
                1
            } else {
                2
            },
        }
    }

    /// The brand's weight vector, indexed by ability ordinal.
    #[must_use]
    pub fn weight_vector(&self) -> (r: Vec<u32>)
        ensures
            r@.len() == NUM_ABILITIES,
            forall|i: int| 0 <= i < NUM_ABILITIES ==> #[trigger] r@[i] == weight(*self, ability_at(i)),
    {
        let mut data: Vec<u32> = Vec::new();
        let mut i: usize = 0;
        while i < NUM_ABILITIES
            invariant
                i <= NUM_ABILITIES,
                data@.len() == i,
                forall|j: int| 0 <= j < i ==> #[trigger] data@[j] == weight(*self, ability_at(j)),
            decreases NUM_ABILITIES - i,
        {
            data.push(self.ability_weight(Ability::from_usize(i)));
            i += 1;
        }
        data
    }

    /// Looks up entry `roll` of the table whose pool leaves out `skip`, if any,
    /// by walking the cumulative weights.
    fn pick(&self, skip: Option<Ability>, roll: u32) -> (r: Ability)
        requires
            roll < expand(*self, skip, NUM_ABILITIES as nat).len(),
        ensures
            r == expand(*self, skip, NUM_ABILITIES as nat)[roll as int],
    {
        proof {
            lemma_expand_len(*self, skip, NUM_ABILITIES as nat);
        }
        let mut acc: u32 = 0;
        let mut i: usize = 0;
        loop
            invariant
                i < NUM_ABILITIES,
                acc == pool_prefix(*self, skip, i as nat),
                acc <= roll,
                roll < pool_prefix(*self, skip, NUM_ABILITIES as nat),
            decreases NUM_ABILITIES - i,
        {
            let a = Ability::from_usize(i);
            let w: u32 = match skip {
                Some(d) => if d == a {
                    0
                } else {
                    self.ability_weight(a)
                },
                None => self.ability_weight(a),
            };
            if roll - acc < w {
                proof {
                    lemma_expand_at(*self, skip, i as nat, roll as int);
                }
                return a;
            }
            acc = acc + w;
            i += 1;
        }
    }
    /// Number of outcome slots when `drink` is active and missed its proc: the
    /// total weight less the drink's own weight.
    #[must_use]
    pub fn max_num_drink(&self, drink: Ability) -> (r: u32)
        ensures
            r == total_weight(*self) - weight(*self, drink),
            r == drink_table(drink, *self).len(),
    {
        proof {
            lemma_drink_prefix(*self, drink, NUM_ABILITIES as nat);
            lemma_ability_ord(drink, 0);
            lemma_expand_len(*self, Some(drink), NUM_ABILITIES as nat);
        }
        self.max_num() - self.ability_weight(drink)
    }

    /// Entry `roll` of the brand's table without a drink.
    #[must_use]
    pub fn weighted_ability(&self, roll: u32) -> (r: Ability)
        requires
            roll < total_weight(*self),
        ensures
            r == flat_table(*self)[roll as int],
    {
        proof {
            lemma_expand_len(*self, None, NUM_ABILITIES as nat);
        }
        self.pick(None, roll)
    }

    /// Entry `roll` of the brand's table with `drink` left out.
    #[must_use]
    pub fn weighted_ability_drink(&self, roll: u32, drink: Ability) -> (r: Ability)
        requires
            roll < drink_table(drink, *self).len(),
        ensures
            r == drink_table(drink, *self)[roll as int],
    {
        self.pick(Some(drink), roll)
    }

    /// The ability that `seed` selects without a drink.
    #[must_use]
    pub fn get_ability(&self, seed: u32) -> (r: Ability)
        ensures
            r == flat_table(*self)[seed as int % total_weight(*self) as int],
    {
        let roll = seed % self.max_num();
        self.weighted_ability(roll)
    }

    /// The ability that `seed` selects from the pool without `drink`.
    #[must_use]
    pub fn get_ability_drink(&self, seed: u32, drink: Ability) -> (r: Ability)
        ensures
            r == drink_table(drink, *self)[seed as int % drink_table(drink, *self).len() as int],
    {
        let n = self.max_num_drink(drink);
        proof {
            lemma_total_weight(*self);
        }
        let roll = seed % n;
        self.weighted_ability_drink(roll, drink)
    }
}

/// The weights of every brand add up to its total weight, 35 for a branded pool
/// and 28 for a generic one, and its table has that many entries.
pub proof fn lemma_table_sizes(b: Brand)
    ensures
        total_weight(b) == if is_generic(b) {
            28nat
        } else {
            35nat
        },
        flat_table(b).len() == total_weight(b),
{
    lemma_total_weight(b);
    lemma_expand_len(b, None, NUM_ABILITIES as nat);
}

/// A branded pool has exactly one ability of weight 1 and exactly one of weight
/// 10, all others weighing 2; a generic pool weighs every ability 2.
pub proof fn lemma_weight_shape(b: Brand)
    ensures
        match brand_pair(b) {
            None => forall|a: Ability| weight(b, a) == 2,
            Some((unusual, usual)) => {
                &&& unusual != usual
                &&& forall|a: Ability| #[trigger] weight(b, a) == 1 <==> a == unusual
                &&& forall|a: Ability| #[trigger] weight(b, a) == 10 <==> a == usual
                &&& forall|a: Ability| a != unusual && a != usual ==> #[trigger] weight(b, a) == 2
            },
        },
{
}

/// The table with a drink left out is shorter than the plain one by the drink's
/// weight, and never holds the drink.
pub proof fn lemma_drink_table(drink: Ability, b: Brand)
    ensures
        drink_table(drink, b).len() == total_weight(b) - weight(b, drink),
        !drink_table(drink, b).contains(drink),
{
    lemma_drink_prefix(b, drink, NUM_ABILITIES as nat);
    lemma_ability_ord(drink, 0);
    lemma_expand_len(b, Some(drink), NUM_ABILITIES as nat);
    lemma_expand_omits(b, drink, NUM_ABILITIES as nat);
}

/// The predicate "is ability `a`".
pub open spec fn equals(a: Ability) -> spec_fn(Ability) -> bool {
    |x: Ability| x == a
}

proof fn lemma_repeat_count(a: Ability, n: nat, x: Ability)
    ensures
        Seq::new(n, |_j: int| a).filter(equals(x)).len() == if a == x {
            n
        } else {
            0
        },
    decreases n,
{
    if n > 0 {
        let shorter = Seq::new((n - 1) as nat, |_j: int| a);
        assert(Seq::new(n, |_j: int| a) =~= shorter.push(a));
        lemma_repeat_count(a, (n - 1) as nat, x);
        shorter.lemma_filter_push(a, equals(x));
    }
}

proof fn lemma_expand_count(b: Brand, skip: Option<Ability>, k: nat, x: Ability)
    requires
        k <= NUM_ABILITIES,
    ensures
        expand(b, skip, k).filter(equals(x)).len() == if ability_ord(x) < k {
            pool_weight(b, skip, x)
        } else {
            0
        },
    decreases k,
{
    lemma_ability_ord(x, (k - 1) as int);
    if k == 0 {
        Seq::<Ability>::empty().lemma_filter_len(equals(x));
    } else {
        let a = ability_at(k - 1);
        lemma_expand_count(b, skip, (k - 1) as nat, x);
        lemma_repeat_count(a, pool_weight(b, skip, a), x);
        Seq::filter_distributes_over_add(
            expand(b, skip, (k - 1) as nat),
            Seq::new(pool_weight(b, skip, a), |_j: int| a),
            equals(x),
        );
    }
}

/// Every table holds each ability exactly as often as its weight in the pool:
/// the plain table by the brand's weights, the drink table the same with the
/// drink at zero.
pub proof fn lemma_table_counts(b: Brand, drink: Ability, a: Ability)
    ensures
        flat_table(b).filter(equals(a)).len() == weight(b, a),
        drink_table(drink, b).filter(equals(a)).len() == if a == drink {
            0
        } else {
            weight(b, a)
        },
{
    lemma_ability_ord(a, 0);
    lemma_expand_count(b, None, NUM_ABILITIES as nat, a);
    lemma_expand_count(b, Some(drink), NUM_ABILITIES as nat, a);
}

proof fn lemma_expand_omits(b: Brand, drink: Ability, k: nat)
    ensures
        !expand(b, Some(drink), k).contains(drink),
    decreases k,
{
    if k > 0 {
        lemma_expand_omits(b, drink, (k - 1) as nat);
        let a = ability_at(k - 1);
        let tail = Seq::new(pool_weight(b, Some(drink), a), |_j: int| a);
        let whole = expand(b, Some(drink), k);
        let head = expand(b, Some(drink), (k - 1) as nat);
        assert forall|j: int| 0 <= j < whole.len() implies whole[j] != drink by {
            if j < head.len() {
                assert(whole[j] == head[j]);
            } else {
                assert(whole[j] == tail[j - head.len()]);
            }
        }
    }
}

} // verus!
