//! The commands that ask where named members are: the key of a member's
//! cell, its position, and the distance between two members.
//!
//! All three ask the store for the scores of the members, one call for
//! each, and turn the scores into cells. Coordinates and distances are
//! computed from the cells outside this library.

use vstd::prelude::*;
use crate::error::CommandError;
use crate::scores::{score_call, zscore_call};
use crate::store::{Call, StoreCall};
use crate::unit::{unit_named, unit_of_upper, uppercase_all, uppers_of, Unit};

verus! {

/// What each call of a list says.
pub open spec fn calls_of(list: Seq<StoreCall>) -> Seq<Call> {
    Seq::new(list.len(), |i: int| list[i]@)
}

/// The calls that ask for the scores of the members named in the
/// arguments of a command: its name, the key, then the members. Without a
/// key the command fails.
pub open spec fn score_calls_of(args: Seq<Seq<char>>) -> Result<Seq<Call>, CommandError> {
    if args.len() < 2 {
        Err(CommandError::WrongArity)
    } else {
        Ok(Seq::new((args.len() - 2) as nat, |j: int| score_call(args[1], args[2 + j])))
    }
}

/// The result `r` holds the calls that the model `m` holds, or the same
/// failure.
pub open spec fn lists(r: Result<Vec<StoreCall>, CommandError>, m: Result<Seq<Call>, CommandError>)
    -> bool {
    match m {
        Ok(calls) => r is Ok && calls_of(r->Ok_0@) == calls,
        Err(e) => r == Err::<Vec<StoreCall>, CommandError>(e),
    }
}

/// Builds the calls that ask for the scores of the members named in the
/// arguments, for the command that gives the key of each member's cell.
pub fn h3index_command(args: Vec<String>) -> (r: Result<Vec<StoreCall>, CommandError>)
    ensures
        lists(r, score_calls_of(args.deep_view())),
{
    if args.len() < 2 {
        return Err(CommandError::WrongArity);
    }
    let mut calls: Vec<StoreCall> = Vec::new();
    let mut j: usize = 2;
    while j < args.len()
        invariant
            2 <= j <= args@.len(),
            calls@.len() == j - 2,
            forall|k: int|
                0 <= k < j - 2 ==> (#[trigger] calls@[k])@ == score_call(args@[1]@, args@[2 + k]@),
        decreases args@.len() - j,
    {
        calls.push(zscore_call(&args[1], &args[j]));
        j += 1;
    }
    assert(calls_of(calls@) =~= score_calls_of(args.deep_view())->Ok_0);
    Ok(calls)
}

/// Builds the calls that ask for the scores of the members named in the
/// arguments, for the command that gives the position of each member.
pub fn h3pos_command(args: Vec<String>) -> (r: Result<Vec<StoreCall>, CommandError>)
    ensures
        lists(r, score_calls_of(args.deep_view())),
{
    h3index_command(args)
}

/// What a command for the distance between two members asks for.
#[derive(Debug, PartialEq, Eq)]
pub struct DistanceQuery {
    /// The call for the score of the first member.
    pub first: StoreCall,
    /// The call for the score of the second member.
    pub second: StoreCall,
    /// The unit to give the distance in.
    pub unit: Unit,
}

/// What a command for a distance asks for, from its arguments: its name,
/// the key, the two members and, where given, the unit; without one the
/// unit is the meter. Fewer than four arguments are a syntax error.
/// `uppers` are the arguments in upper case.
pub open spec fn distance_query_of(args: Seq<Seq<char>>, uppers: Seq<Seq<char>>) -> Result<
    (Call, Call, Unit),
    CommandError,
> {
    if args.len() < 4 {
        Err(CommandError::Syntax)
    } else {
        let unit = if args.len() > 4 && uppers.len() > 4 {
            unit_named(uppers[4])
        } else if args.len() > 4 {
            Err(CommandError::UnsupportedUnit)
        } else {
            Ok(Unit::Meters)
        };
        match unit {
            Err(e) => Err(e),
            Ok(unit) => Ok((score_call(args[1], args[2]), score_call(args[1], args[3]), unit)),
        }
    }
}

/// The result `r` holds what the model `m` holds, or the same failure.
pub open spec fn measures(r: Result<DistanceQuery, CommandError>, m: Result<
    (Call, Call, Unit),
    CommandError,
>) -> bool {
    match m {
        Ok(query) => r is Ok && r->Ok_0.first@ == query.0 && r->Ok_0.second@ == query.1
            && r->Ok_0.unit == query.2,
        Err(e) => r == Err::<DistanceQuery, CommandError>(e),
    }
}

/// Reads a command for the distance between two members from its
/// arguments and the same arguments in upper case.
pub fn h3dist_plan(args: &Vec<String>, uppers: &Vec<String>) -> (r: Result<
    DistanceQuery,
    CommandError,
>)
    ensures
        measures(r, distance_query_of(args.deep_view(), uppers.deep_view())),
{
    if args.len() < 4 {
        return Err(CommandError::Syntax);
    }
    let unit: Unit = if args.len() > 4 {
        if uppers.len() > 4 {
            match unit_of_upper(uppers[4].as_str()) {
                Ok(unit) => unit,
                Err(e) => {
                    return Err(e);
                },
            }
        } else {
            return Err(CommandError::UnsupportedUnit);
        }
    } else {
        Unit::Meters
    };
    Ok(
        DistanceQuery {
            first: zscore_call(&args[1], &args[2]),
            second: zscore_call(&args[1], &args[3]),
            unit,
        },
    )
}

/// Reads a command for the distance between two members from its
/// arguments. The unit is read in whatever case it is written.
pub fn h3dist_command(args: Vec<String>) -> (r: Result<DistanceQuery, CommandError>)
    ensures
        measures(r, distance_query_of(args.deep_view(), uppercase_all(args.deep_view()))),
{
    let uppers = uppers_of(&args);
    h3dist_plan(&args, &uppers)
}

/// The two cells to measure between: the first two of `cells`, where both
/// are there.
pub open spec fn ends_of(cells: Seq<Option<u64>>) -> Result<(u64, u64), CommandError> {
    if cells.len() >= 2 && cells[0] is Some && cells[1] is Some {
        Ok((cells[0]->Some_0, cells[1]->Some_0))
    } else {
        Err(CommandError::NoDistance)
    }
}

/// Picks the two cells to measure between. Where a member is not in the
/// store there is no distance.
pub fn distance_cells(cells: &Vec<Option<u64>>) -> (r: Result<(u64, u64), CommandError>)
    ensures
        r == ends_of(cells@),
{
    if cells.len() < 2 {
        return Err(CommandError::NoDistance);
    }
    match (cells[0], cells[1]) {
        (Some(from), Some(to)) => Ok((from, to)),
        _ => Err(CommandError::NoDistance),
    }
}

} // verus!
