//! One roll of the generator against a brand, and the replay of a sequence of
//! observed rolls.
use vstd::prelude::*;
use crate::catalog::{Ability, Brand};
use crate::generator::{advance_seed, xorshift};
use crate::tables::{drink_table, flat_table, total_weight};

verus! {

/// A drink procs when the advanced state modulo 100 is at most this value.
pub const DRINK_PROC_MAX: u32 = 29;

/// One observed roll: the ability that came out and the drink active, if any.
#[derive(Debug, Clone, Copy, PartialEq, Eq, Structural)]
pub struct Slot {
    pub ability: Ability,
    pub drink: Option<Ability>,
}

/// The outcome of one roll from state `s`, with the state after it.
pub open spec fn roll(s: u32, b: Brand, drink: Option<Ability>) -> (Ability, u32) {
    let s1 = xorshift(s);
    match drink {
        None => (flat_table(b)[s1 as int % total_weight(b) as int], s1),
        Some(d) => if s1 % 100 <= DRINK_PROC_MAX {
            (d, s1)
        } else {
            let s2 = xorshift(s1);
            (drink_table(d, b)[s2 as int % drink_table(d, b).len() as int], s2)
        },
    }
}

/// Whether the rolls replayed from state `s` give the expected ability of every
/// slot, in order.
pub open spec fn replays(s: u32, b: Brand, slots: Seq<Slot>) -> bool
    decreases slots.len(),
{
    if slots.len() == 0 {
        true
    } else {
        let (a, next) = roll(s, b, slots[0].drink);
        a == slots[0].ability && replays(next, b, slots.drop_first())
    }
}

/// The abilities rolled from state `s` with the given drinks, one per roll.
pub open spec fn simulate(s: u32, b: Brand, drinks: Seq<Option<Ability>>) -> Seq<Ability>
    decreases drinks.len(),
{
    if drinks.len() == 0 {
        Seq::empty()
    } else {
        let (a, next) = roll(s, b, drinks[0]);
        seq![a] + simulate(next, b, drinks.drop_first())
    }
}

/// Pairs observed abilities with the drinks that were active.
pub open spec fn slots_of(abilities: Seq<Ability>, drinks: Seq<Option<Ability>>) -> Seq<Slot> {
    Seq::new(drinks.len(), |i: int| Slot { ability: abilities[i], drink: drinks[i] })
}

/// Rolls one ability, advancing `seed` once, or twice where a drink misses its
/// proc.
pub fn get_ability(seed: &mut u32, brand: Brand, drink: Option<Ability>) -> (r: Ability)
    ensures
        (r, *final(seed)) == roll(*old(seed), brand, drink),
{
    advance_seed(seed);
    let rv = brand.get_ability(*seed);
    match drink {
        Some(drink) => {
            if *seed % 100 <= DRINK_PROC_MAX {
                drink
            } else {
                advance_seed(seed);
                brand.get_ability_drink(*seed, drink)
            }
        },
        None => rv,
    }
}

/// Whether `seed` reproduces every slot, in order.
#[must_use]
pub fn slots_match(seed: u32, gear_brand: &Brand, slots: &[Slot]) -> (r: bool)
    ensures
        r == replays(seed, *gear_brand, slots@),
{
    let mut state = seed;
    let mut i: usize = 0;
    assert(slots@.subrange(0, slots@.len() as int) =~= slots@);
    while i < slots.len()
        invariant
            i <= slots@.len(),
            replays(seed, *gear_brand, slots@) == replays(
                state,
                *gear_brand,
                slots@.subrange(i as int, slots@.len() as int),
            ),
        decreases slots@.len() - i,
    {
        let slot = slots[i];
        proof {
            let rest = slots@.subrange(i as int, slots@.len() as int);
            assert(rest.drop_first() =~= slots@.subrange(i + 1, slots@.len() as int));
        }
        if get_ability(&mut state, *gear_brand, slot.drink) != slot.ability {
            return false;
        }
        i += 1;
    }
    true
}

/// Where the advanced state modulo 100 is at most 29 the drink procs, with no
/// further step; from 30 up the state is advanced once more and the roll is
/// drawn from the table without the drink.
pub proof fn lemma_drink_threshold(s: u32, b: Brand, d: Ability)
    ensures
        xorshift(s) % 100 <= 29 ==> roll(s, b, Some(d)) == (d, xorshift(s)),
        xorshift(s) % 100 >= 30 ==> roll(s, b, Some(d)).1 == xorshift(xorshift(s)) && roll(
            s,
            b,
            Some(d),
        ).0 == drink_table(d, b)[xorshift(xorshift(s)) as int % drink_table(d, b).len() as int],
{
}

/// Rolls simulated from a seed, fed back as slots with the same drinks, are
/// replayed by that seed.
pub proof fn lemma_round_trip(seed: u32, b: Brand, drinks: Seq<Option<Ability>>)
    ensures
        replays(seed, b, slots_of(simulate(seed, b, drinks), drinks)),
    decreases drinks.len(),
{
    if drinks.len() > 0 {
        let (a, next) = roll(seed, b, drinks[0]);
        let rest = drinks.drop_first();
        lemma_round_trip(next, b, rest);
        lemma_simulate_len(next, b, rest);
        let slots = slots_of(simulate(seed, b, drinks), drinks);
        assert(slots.drop_first() =~= slots_of(simulate(next, b, rest), rest));
    }
}

proof fn lemma_simulate_len(s: u32, b: Brand, drinks: Seq<Option<Ability>>)
    ensures
        simulate(s, b, drinks).len() == drinks.len(),
    decreases drinks.len(),
{
    if drinks.len() > 0 {
        lemma_simulate_len(roll(s, b, drinks[0]).1, b, drinks.drop_first());
    }
}

} // verus!
