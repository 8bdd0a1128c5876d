//! Exhaustive search for the seeds that reproduce a sequence of observed rolls.
//!
//! Candidates are examined in chunks; the seeds of a chunk are matched in
//! parallel, and the hits are then collected in ascending order. Collection
//! stops for good once the cap is reached, so a capped search returns exactly the
//! first `cap` hits of the range (or all of them, where there are fewer).
use vstd::prelude::*;
use rayon::iter::{IndexedParallelIterator, IntoParallelRefIterator, ParallelIterator};
use crate::catalog::{ability_at, brand_at, Ability, Brand, NUM_ABILITIES, NUM_BRANDS};
use crate::roll::{replays, slots_match, Slot};

verus! {

/// Number of candidates matched together in one parallel pass.
pub const CHUNK_LEN: u64 = 65536;

/// The seeds of `first..=last` that replay `slots`, in ascending order.
pub open spec fn hits(first: int, last: int, b: Brand, slots: Seq<Slot>) -> Seq<u32>
    decreases last - first + 1,
{
    if last < first {
        Seq::empty()
    } else {
        let prev = hits(first, last - 1, b, slots);
        if replays(last as u32, b, slots) {
            prev.push(last as u32)
        } else {
            prev
        }
    }
}

/// The first `cap` elements of `s`, or all of `s` when there is no cap or `s`
/// is shorter.
pub open spec fn capped(s: Seq<u32>, cap: Option<u32>) -> Seq<u32> {
    match cap {
        None => s,
        Some(c) => if s.len() <= c {
            s
        } else {
            s.take(c as int)
        },
    }
}

/// Whether a collection of `len` hits has reached the cap.
pub open spec fn is_full(len: int, cap: Option<u32>) -> bool {
    match cap {
        None => false,
        Some(c) => len >= c,
    }
}

/// Adding one candidate to the range adds it to the capped hits exactly when it
/// replays and the cap is not yet reached.
proof fn lemma_capped_step(first: int, x: int, b: Brand, slots: Seq<Slot>, cap: Option<u32>)
    requires
        first <= x + 1,
    ensures
        capped(hits(first, x + 1, b, slots), cap) == if replays((x + 1) as u32, b, slots) && !is_full(
            capped(hits(first, x, b, slots), cap).len() as int,
            cap,
        ) {
            capped(hits(first, x, b, slots), cap).push((x + 1) as u32)
        } else {
            capped(hits(first, x, b, slots), cap)
        },
{
    let prev = hits(first, x, b, slots);
    let next = hits(first, x + 1, b, slots);
    assert(next == if replays((x + 1) as u32, b, slots) {
        prev.push((x + 1) as u32)
    } else {
        prev
    });
    if let Some(c) = cap {
        if prev.len() >= c {
            assert(next.take(c as int) =~= prev.take(c as int));
        }
    }
}

/// Once the cap is reached, widening the range changes nothing.
proof fn lemma_capped_full(first: int, x: int, y: int, b: Brand, slots: Seq<Slot>, cap: Option<u32>)
    requires
        first <= x + 1,
        x <= y,
        is_full(capped(hits(first, x, b, slots), cap).len() as int, cap),
    ensures
        capped(hits(first, y, b, slots), cap) == capped(hits(first, x, b, slots), cap),
    decreases y - x,
{
    if x < y {
        lemma_capped_full(first, x, y - 1, b, slots, cap);
        lemma_capped_step(first, y - 1, b, slots, cap);
    }
}

/// Every hit lies in the range and replays the slots.
proof fn lemma_hits_replay(first: int, last: int, b: Brand, slots: Seq<Slot>)
    requires
        0 <= first,
        last <= u32::MAX,
    ensures
        forall|i: int|
            0 <= i < hits(first, last, b, slots).len() ==> {
                &&& first <= #[trigger] hits(first, last, b, slots)[i] <= last
                &&& replays(hits(first, last, b, slots)[i], b, slots)
            },
    decreases last - first + 1,
{
    if first <= last {
        lemma_hits_replay(first, last - 1, b, slots);
        let prev = hits(first, last - 1, b, slots);
        assert forall|i: int| 0 <= i < hits(first, last, b, slots).len() implies {
            &&& first <= #[trigger] hits(first, last, b, slots)[i] <= last
            &&& replays(hits(first, last, b, slots)[i], b, slots)
        } by {
            if i < prev.len() {
                assert(hits(first, last, b, slots)[i] == prev[i]);
            }
        }
    }
}

/// A capped collection holds `min(len, cap)` hits and is a prefix of the
/// uncapped one, in the same order.
pub proof fn lemma_capped_prefix(s: Seq<u32>, c: u32)
    ensures
        capped(s, Some(c)).len() == if s.len() <= c {
            s.len()
        } else {
            c as nat
        },
        forall|i: int| 0 <= i < capped(s, Some(c)).len() ==> #[trigger] capped(s, Some(c))[i] == s[i],
{
}

/// Relies on rayon: `par_iter` over a slice, `map`, then `collect_into_vec`
/// gives one result per element, at the element's index.
#[verifier::external_body]
fn match_flags(seeds: &Vec<u32>, gear_brand: Brand, slots: &[Slot]) -> (r: Vec<bool>)
    ensures
        r@.len() == seeds@.len(),
        forall|i: int| 0 <= i < seeds@.len() ==> #[trigger] r@[i] == replays(seeds@[i], gear_brand, slots@),
{
    let mut flags: Vec<bool> = Vec::new();
    seeds.par_iter().map(|s| slots_match(*s, &gear_brand, slots)).collect_into_vec(&mut flags);
    flags
}

fn reached_cap(found: &Vec<u32>, max_results: Option<u32>) -> (r: bool)
    ensures
        r == is_full(found@.len() as int, max_results),
{
    match max_results {
        Some(c) => found.len() >= c as usize,
        None => false,
    }
}

/// Collects the seeds of `first..=last` that reproduce every slot, in ascending
/// order, stopping at `max_results` hits when a cap is given.
#[must_use]
pub fn get_initial_seeds(
    first: u32,
    last: u32,
    max_results: Option<u32>,
    gear_brand: Brand,
    slots: &[Slot],
) -> (r: Vec<u32>)
    ensures
        r@ == capped(hits(first as int, last as int, gear_brand, slots@), max_results),
{
    let mut found: Vec<u32> = Vec::new();
    if first > last {
        return found;
    }
    let mut next: u64 = first as u64;
    while next <= last as u64 && !reached_cap(&found, max_results)
        invariant
            first <= next <= last as int + 1,
            found@ == capped(hits(first as int, next - 1, gear_brand, slots@), max_results),
        decreases last as int + 1 - next,
    {
        let end: u64 = if last as u64 - next < CHUNK_LEN {
            last as u64
        } else {
            next + CHUNK_LEN - 1
        };
        let mut seeds: Vec<u32> = Vec::new();
        let mut s: u64 = next;
        while s <= end
            invariant
                next <= s <= end + 1,
                end <= last,
                seeds@.len() == s - next,
                forall|k: int| 0 <= k < seeds@.len() ==> #[trigger] seeds@[k] == next + k,
            decreases end + 1 - s,
        {
            seeds.push(s as u32);
            s += 1;
        }
        let flags = match_flags(&seeds, gear_brand, slots);
        let mut j: usize = 0;
        while j < flags.len()
            invariant
                flags@.len() == seeds@.len() == end - next + 1,
                end <= last,
                first <= next,
                forall|k: int| 0 <= k < seeds@.len() ==> #[trigger] seeds@[k] == next + k,
                forall|k: int|
                    0 <= k < seeds@.len() ==> #[trigger] flags@[k] == replays(
                        seeds@[k],
                        gear_brand,
                        slots@,
                    ),
                j <= flags@.len(),
                found@ == capped(hits(first as int, next + j - 1, gear_brand, slots@), max_results),
            decreases flags@.len() - j,
        {
            proof {
                lemma_capped_step(first as int, next + j - 1, gear_brand, slots@, max_results);
            }
            if flags[j] && !reached_cap(&found, max_results) {
                found.push(seeds[j]);
            }
            j += 1;
        }
        next = end + 1;
    }
    proof {
        if next <= last {
            lemma_capped_full(first as int, next - 1, last as int, gear_brand, slots@, max_results);
        }
    }
    found
}

/// Searches `first..=last` as `get_initial_seeds` does, then replays every
/// collected seed once more and keeps those that match again; the proof shows
/// that none is ever dropped.
#[must_use]
pub fn get_results(
    first: u32,
    last: u32,
    max_results: Option<u32>,
    gear_brand: Brand,
    slots: &[Slot],
) -> (r: Vec<u32>)
    ensures
        r@ == capped(hits(first as int, last as int, gear_brand, slots@), max_results),
{
    let initial = get_initial_seeds(first, last, max_results, gear_brand, slots);
    proof {
        lemma_hits_replay(first as int, last as int, gear_brand, slots@);
        if let Some(c) = max_results {
            lemma_capped_prefix(hits(first as int, last as int, gear_brand, slots@), c);
        }
    }
    let mut results: Vec<u32> = Vec::new();
    let mut i: usize = 0;
    while i < initial.len()
        invariant
            i <= initial@.len(),
            results@ == initial@.take(i as int),
            forall|k: int| 0 <= k < initial@.len() ==> replays(#[trigger] initial@[k], gear_brand, slots@),
        decreases initial@.len() - i,
    {
        if slots_match(initial[i], &gear_brand, slots) {
            results.push(initial[i]);
        }
        i += 1;
        assert(results@ =~= initial@.take(i as int));
    }
    assert(results@ =~= initial@);
    results
}

/// The drink byte that stands for "no drink" in a packed slot.
pub const NO_DRINK_BYTE: u32 = 0xFF;

/// The slot packed in `data`: the low byte is the ability's ordinal, the next
/// byte the drink's, or `0xFF` for none.
pub open spec fn decoded(data: u32) -> Slot {
    let drink = (data / 256) % 256;
    Slot {
        ability: ability_at((data % 256) as int),
        drink: if drink == NO_DRINK_BYTE {
            None
        } else {
            Some(ability_at(drink as int))
        },
    }
}

/// Whether both bytes of a packed slot name an ability (or no drink).
pub open spec fn valid_packed(data: u32) -> bool {
    let drink = (data / 256) % 256;
    &&& data % 256 < NUM_ABILITIES
    &&& drink == NO_DRINK_BYTE || drink < NUM_ABILITIES
}

/// Unpacks one slot.
#[must_use]
pub fn decode_slot(data: u32) -> (r: Slot)
    requires
        valid_packed(data),
    ensures
        r == decoded(data),
{
    let ability = data & 0xFF;
    let drink = (data & 0xFF00) >> 8;
    assert(data & 0xFF == data % 256 && (data & 0xFF00) >> 8 == (data / 256) % 256)
        by (bit_vector);
    Slot {
        ability: Ability::from_usize(ability as usize),
        drink: if drink == NO_DRINK_BYTE {
            None
        } else {
            Some(Ability::from_usize(drink as usize))
        },
    }
}

/// Searches every 32-bit seed for the packed slots, with brand `gear_brand`
/// given by ordinal, keeping at most `max_results` hits.
#[must_use]
pub fn mine(max_results: u32, gear_brand: u32, slots: &[u32]) -> (r: Vec<u32>)
    requires
        gear_brand < NUM_BRANDS,
        forall|i: int| 0 <= i < slots@.len() ==> valid_packed(#[trigger] slots@[i]),
    ensures
        r@ == capped(
            hits(0, u32::MAX as int, brand_at(gear_brand as int), slots@.map_values(|d: u32| decoded(d))),
            Some(max_results),
        ),
{
    let mut converted: Vec<Slot> = Vec::new();
    let mut i: usize = 0;
    while i < slots.len()
        invariant
            i <= slots@.len(),
            forall|k: int| 0 <= k < slots@.len() ==> valid_packed(#[trigger] slots@[k]),
            converted@ =~= slots@.take(i as int).map_values(|d: u32| decoded(d)),
        decreases slots@.len() - i,
    {
        converted.push(decode_slot(slots[i]));
        i += 1;
    }
    assert(slots@.take(slots@.len() as int) =~= slots@);
    get_results(
        0,
        u32::MAX,
        Some(max_results),
        Brand::from_usize(gear_brand as usize),
        converted.as_slice(),
    )
}

} // verus!
