//! Units of distance and the words of a command.

use vstd::prelude::*;
use crate::error::CommandError;
use crate::text::{same_text, to_upper, uppercase_of};

verus! {

/// A unit of distance.
#[derive(Clone, Copy, Debug, PartialEq, Eq, Structural)]
pub enum Unit {
    Meters,
    Kilometers,
    Feet,
    Miles,
}

impl Unit {
    /// The length of one unit in micrometers.
    pub open spec fn micrometers_of(self) -> nat {
        match self {
            Unit::Meters => 1_000_000,
            Unit::Kilometers => 1_000_000_000,
            Unit::Feet => 304_800,
            Unit::Miles => 1_609_340_000,
        }
    }

    /// The length of one unit in micrometers: a meter is 1000000 of them, a
    /// kilometer 1000 meters, a foot 3048 ten-thousandths of a meter and a
    /// mile 160934 hundredths of a meter.
    pub fn micrometers(&self) -> (length: u64)
        ensures
            length == self.micrometers_of(),
    {
        match self {
            Unit::Meters => 1_000_000,
            Unit::Kilometers => 1_000_000_000,
            Unit::Feet => 304_800,
            Unit::Miles => 1_609_340_000,
        }
    }
}

/// The unit that a word in upper case names.
pub open spec fn unit_named(upper: Seq<char>) -> Result<Unit, CommandError> {
    if upper == "M"@ {
        Ok(Unit::Meters)
    } else if upper == "KM"@ {
        Ok(Unit::Kilometers)
    } else if upper == "FT"@ {
        Ok(Unit::Feet)
    } else if upper == "MI"@ {
        Ok(Unit::Miles)
    } else {
        Err(CommandError::UnsupportedUnit)
    }
}

/// Finds the unit that a word in upper case names: `M`, `KM`, `FT` or `MI`.
pub fn unit_of_upper(upper: &str) -> (r: Result<Unit, CommandError>)
    ensures
        r == unit_named(upper@),
{
    if same_text(upper, "M") {
        Ok(Unit::Meters)
    } else if same_text(upper, "KM") {
        Ok(Unit::Kilometers)
    } else if same_text(upper, "FT") {
        Ok(Unit::Feet)
    } else if same_text(upper, "MI") {
        Ok(Unit::Miles)
    } else {
        Err(CommandError::UnsupportedUnit)
    }
}

/// Finds the unit that a word names, in whatever case it is written.
pub fn unit_str_to_conversion(unit: &String) -> (r: Result<Unit, CommandError>)
    ensures
        r == unit_named(uppercase_of(unit@)),
{
    let upper = to_upper(unit.as_str());
    unit_of_upper(upper.as_str())
}

/// Every text in upper case.
pub open spec fn uppercase_all(texts: Seq<Seq<char>>) -> Seq<Seq<char>> {
    Seq::new(texts.len(), |i: int| uppercase_of(texts[i]))
}

/// Puts every argument in upper case.
pub fn uppers_of(args: &Vec<String>) -> (uppers: Vec<String>)
    ensures
        uppers.deep_view() == uppercase_all(args.deep_view()),
{
    let mut uppers: Vec<String> = Vec::new();
    let mut i: usize = 0;
    while i < args.len()
        invariant
            i <= args@.len(),
            uppers@.len() == i,
            forall|j: int| 0 <= j < i ==> (#[trigger] uppers@[j])@ == uppercase_of(args@[j]@),
        decreases args@.len() - i,
    {
        uppers.push(to_upper(args[i].as_str()));
        i += 1;
    }
    assert(uppers.deep_view() =~= uppercase_all(args.deep_view()));
    uppers
}

/// The `i`-th of `uppers` is there and is the word `word`.
pub open spec fn word_at(uppers: Seq<Seq<char>>, i: int, word: Seq<char>) -> bool {
    0 <= i < uppers.len() && uppers[i] == word
}

/// Whether the `i`-th of `uppers` is the word `word`.
pub fn is_word(uppers: &Vec<String>, i: usize, word: &str) -> (r: bool)
    ensures
        r == word_at(uppers.deep_view(), i as int, word@),
{
    i < uppers.len() && same_text(uppers[i].as_str(), word)
}

} // verus!
