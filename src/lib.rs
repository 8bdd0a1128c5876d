//! Recovery of the state of a xorshift generator from observed gear ability rolls.
pub mod catalog;
pub mod generator;
pub mod option;
pub mod roll;
pub mod search;
pub mod tables;

pub use catalog::{Ability, Brand};
pub use generator::advance_seed;
pub use option::MyOption;
pub use roll::{get_ability, slots_match, Slot};
pub use search::{decode_slot, get_initial_seeds, get_results, mine};
