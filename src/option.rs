//! An optional value read from a command line.
use vstd::prelude::*;

verus! {

/// A value that was given, or nothing.
#[derive(Debug, Clone, Copy)]
pub enum MyOption<T> {
    Value(T),
    Nothing,
}

impl<T> MyOption<T> {
    /// The same value as a standard `Option`.
    pub fn into_option(self) -> (r: Option<T>)
        ensures
            match self {
                MyOption::Value(v) => r == Some(v),
                MyOption::Nothing => r is None,
            },
    {
        match self {
            MyOption::Value(val) => Some(val),
            MyOption::Nothing => None,
        }
    }
}

} // verus!
