//! The stored records the bot keeps per player, and the names of the flag
//! quiz table.
use vstd::prelude::*;

verus! {

/// The flag quiz table and its columns.
#[derive(Clone, Copy, Debug, PartialEq, Eq, Structural)]
pub enum Flags {
    Table,
    Id,
    FirstAttempt,
    SecondAttempt,
    ThirdAttempt,
    Wrong,
}

impl Flags {
    /// The stored name: the table is named after the enum, each column after
    /// its variant, in snake case.
    pub fn name(&self) -> (s: &'static str)
        ensures
            *self == Flags::Table ==> s@ == "flags"@,
            *self == Flags::Id ==> s@ == "id"@,
            *self == Flags::FirstAttempt ==> s@ == "first_attempt"@,
            *self == Flags::SecondAttempt ==> s@ == "second_attempt"@,
            *self == Flags::ThirdAttempt ==> s@ == "third_attempt"@,
            *self == Flags::Wrong ==> s@ == "wrong"@,
    {
        match self {
            Flags::Table => "flags",
            Flags::Id => "id",
            Flags::FirstAttempt => "first_attempt",
            Flags::SecondAttempt => "second_attempt",
            Flags::ThirdAttempt => "third_attempt",
            Flags::Wrong => "wrong",
        }
    }

    /// Whether the column is the table's key (an auto-incremented integer); the
    /// others are plain integers, none of them null.
    pub fn is_primary_key(&self) -> (b: bool)
        ensures
            b == (*self == Flags::Id),
    {
        match self {
            Flags::Id => true,
            _ => false,
        }
    }
}

/// A player's tally of button games: right and wrong presses.
#[derive(Clone, Copy, Debug, PartialEq, Eq, Structural)]
pub struct ButtonStats {
    pub asserted: i32,
    pub wrong: i32,
}

impl ButtonStats {
    /// The tally of a player who has not played yet.
    pub fn new() -> (s: Self)
        ensures
            s == (ButtonStats { asserted: 0, wrong: 0 }),
    {
        ButtonStats { asserted: 0, wrong: 0 }
    }
}

} // verus!
