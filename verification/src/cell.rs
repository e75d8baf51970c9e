//! The commands that ask which members lie in a cell, and how many.
//!
//! The cell comes as a reference in the third argument. What cell it
//! refers to is found with the geospatial indexing library and handed in
//! beside the arguments: the cell, or nothing where the reference is of no
//! cell.

use vstd::prelude::*;
use crate::error::CommandError;
use crate::members::{count_call, count_cell_members, get_cell_members, members_call};
use crate::store::{gives, Call, StoreCall};
use crate::text::{parse_i64, signed_decimal};
use crate::unit::{is_word, uppercase_all, uppers_of, word_at};

verus! {

/// What the options of a query for the members of a cell ask for.
#[derive(Clone, Copy, Debug, PartialEq, Eq, Structural)]
pub struct CellChoice {
    /// The key of each member's cell beside its name.
    pub withindices: bool,
    /// Only a window of the members.
    pub limit: bool,
    /// How many members the window leaves out at the start.
    pub offset: i64,
    /// How many members the window holds.
    pub count: i64,
}

/// What the options from the `from`-th argument on ask for, after those
/// before them asked for `sofar`. `WITHINDICES` stands alone and `LIMIT`
/// takes two whole numbers, offset and count; with fewer than two arguments
/// after it `LIMIT` is a syntax error. `uppers` are the arguments in upper
/// case.
pub open spec fn cell_choice_from(
    args: Seq<Seq<char>>,
    uppers: Seq<Seq<char>>,
    from: int,
    sofar: CellChoice,
) -> Result<CellChoice, CommandError>
    decreases args.len() - from,
{
    if from < 0 || from >= args.len() {
        Ok(sofar)
    } else if word_at(uppers, from, "WITHINDICES"@) {
        cell_choice_from(
            args,
            uppers,
            from + 1,
            CellChoice {
                withindices: true,
                limit: sofar.limit,
                offset: sofar.offset,
                count: sofar.count,
            },
        )
    } else if word_at(uppers, from, "LIMIT"@) {
        if from + 2 >= args.len() {
            Err(CommandError::Syntax)
        } else {
            match signed_decimal(args[from + 1]) {
                None => Err(CommandError::NotAnInteger { position: (from + 1) as usize }),
                Some(offset) => match signed_decimal(args[from + 2]) {
                    None => Err(CommandError::NotAnInteger { position: (from + 2) as usize }),
                    Some(count) => cell_choice_from(
                        args,
                        uppers,
                        from + 3,
                        CellChoice { withindices: sofar.withindices, limit: true, offset, count },
                    ),
                },
            }
        }
    } else {
        Err(CommandError::Syntax)
    }
}

/// No option was given.
pub open spec fn no_choice() -> CellChoice {
    CellChoice { withindices: false, limit: false, offset: 0, count: 0 }
}

/// The query for the members of a cell, from the arguments of the command:
/// its name, the key, the reference to the cell, then options. Fewer than
/// three arguments are a syntax error; then a reference that is of no cell
/// fails; then the options are read. The result is the call to the store
/// and whether scores come with the names.
pub open spec fn cell_query_of(args: Seq<Seq<char>>, uppers: Seq<Seq<char>>, cell: Option<u64>)
    -> Result<(Call, bool), CommandError> {
    if args.len() < 3 {
        Err(CommandError::Syntax)
    } else {
        match cell {
            None => Err(CommandError::InvalidIndexString),
            Some(h3ll) => match cell_choice_from(args, uppers, 3, no_choice()) {
                Err(e) => Err(e),
                Ok(choice) => Ok(
                    (
                        members_call(
                            args[1],
                            h3ll,
                            choice.withindices,
                            choice.limit,
                            choice.offset,
                            choice.count,
                        ),
                        choice.withindices,
                    ),
                ),
            },
        }
    }
}

/// A query for the members of a cell.
#[derive(Debug, PartialEq, Eq)]
pub struct CellQuery {
    /// The call to the store.
    pub call: StoreCall,
    /// Whether the reply holds a score after each name.
    pub withindices: bool,
}

/// The result `r` holds the query that the model `m` holds, or the same
/// failure.
pub open spec fn asks(r: Result<CellQuery, CommandError>, m: Result<(Call, bool), CommandError>)
    -> bool {
    match m {
        Ok(query) => r is Ok && r->Ok_0.call@ == query.0 && r->Ok_0.withindices == query.1,
        Err(e) => r == Err::<CellQuery, CommandError>(e),
    }
}

/// The reference to a cell among the arguments of a command that names one
/// cell: the third argument, where there is one.
pub fn index_argument(args: &Vec<String>) -> (reference: Option<&String>)
    ensures
        args@.len() < 3 ==> reference is None,
        args@.len() >= 3 ==> reference == Some(&args@[2]),
{
    if args.len() >= 3 {
        Some(&args[2])
    } else {
        None
    }
}

/// Builds the query for the members of a cell from the arguments of the
/// command, the same arguments in upper case, and the cell that the
/// reference among them is of.
pub fn h3cell_plan(args: &Vec<String>, uppers: &Vec<String>, cell: Option<u64>) -> (r: Result<
    CellQuery,
    CommandError,
>)
    ensures
        asks(r, cell_query_of(args.deep_view(), uppers.deep_view(), cell)),
{
    if args.len() < 3 {
        return Err(CommandError::Syntax);
    }
    let h3ll: u64 = match cell {
        Some(h3ll) => h3ll,
        None => {
            return Err(CommandError::InvalidIndexString);
        },
    };
    let mut choice = CellChoice { withindices: false, limit: false, offset: 0, count: 0 };
    let ghost texts = args.deep_view();
    let ghost words = uppers.deep_view();
    let mut i: usize = 3;
    while i < args.len()
        invariant
            3 <= i,
            3 <= args@.len(),
            cell == Some(h3ll),
            texts == args.deep_view(),
            words == uppers.deep_view(),
            texts.len() == args@.len(),
            cell_choice_from(texts, words, 3, no_choice()) == cell_choice_from(
                texts,
                words,
                i as int,
                choice,
            ),
        decreases args@.len() - i,
    {
        if is_word(uppers, i, "WITHINDICES") {
            choice.withindices = true;
            i += 1;
        } else if is_word(uppers, i, "LIMIT") {
            if args.len() - i < 3 {
                return Err(CommandError::Syntax);
            }
            let offset: i64 = match parse_i64(args[i + 1].as_str()) {
                Some(offset) => offset,
                None => {
                    return Err(CommandError::NotAnInteger { position: i + 1 });
                },
            };
            let count: i64 = match parse_i64(args[i + 2].as_str()) {
                Some(count) => count,
                None => {
                    return Err(CommandError::NotAnInteger { position: i + 2 });
                },
            };
            choice.limit = true;
            choice.offset = offset;
            choice.count = count;
            i += 3;
        } else {
            return Err(CommandError::Syntax);
        }
    }
    let call = get_cell_members(
        &args[1],
        h3ll,
        choice.withindices,
        choice.limit,
        choice.offset,
        choice.count,
    );
    Ok(CellQuery { call, withindices: choice.withindices })
}

/// Builds the query for the members of a cell from the arguments of the
/// command and the cell that the reference among them is of. Options are
/// read in whatever case they are written.
pub fn h3cell_command(args: Vec<String>, cell: Option<u64>) -> (r: Result<CellQuery, CommandError>)
    ensures
        asks(r, cell_query_of(args.deep_view(), uppercase_all(args.deep_view()), cell)),
{
    let uppers = uppers_of(&args);
    h3cell_plan(&args, &uppers, cell)
}

/// The call that counts the members of a cell, from the arguments of the
/// command: its name, the key and the reference to the cell, no more and
/// no less; a reference that is of no cell fails.
pub open spec fn count_query_of(args: Seq<Seq<char>>, cell: Option<u64>) -> Result<
    Call,
    CommandError,
> {
    if args.len() != 3 {
        Err(CommandError::Syntax)
    } else {
        match cell {
            None => Err(CommandError::InvalidIndexString),
            Some(h3ll) => Ok(count_call(args[1], h3ll)),
        }
    }
}

/// Builds the call that counts the members of a cell from the arguments of
/// the command and the cell that the reference among them is of. The reply
/// of the store is the answer as it stands.
pub fn h3count_command(args: Vec<String>, cell: Option<u64>) -> (r: Result<StoreCall, CommandError>)
    ensures
        gives(r, count_query_of(args.deep_view(), cell)),
{
    if args.len() != 3 {
        return Err(CommandError::Syntax);
    }
    match cell {
        None => Err(CommandError::InvalidIndexString),
        Some(h3ll) => Ok(count_cell_members(&args[1], h3ll)),
    }
}

} // verus!
