//! The commands that insert members: at a point, or at a cell given by its
//! reference.
//!
//! The cell of a point and the cell of a reference are found with the
//! geospatial indexing library and handed in beside the arguments, one for
//! each member in the order of the arguments, nothing where there is none.

use vstd::prelude::*;
use crate::error::CommandError;
use crate::index::{get_resolution, resolution_of, MAX_RESOLUTION};
use crate::outcome::{all_or_first, lemma_all_or_first_step};
use crate::score::{h3ll_to_score, score_of};
use crate::store::{gives, push_string, Call, StoreCall, StoreCommand};
use crate::text::{decimal_digits, decimal_text};

verus! {

/// The `j`-th cell, or nothing where the list is too short.
pub open spec fn cell_at(cells: Seq<Option<u64>>, j: int) -> Option<u64> {
    if 0 <= j < cells.len() {
        cells[j]
    } else {
        None
    }
}

/// The arguments of an insertion: the key, then for each member its score
/// and its name.
pub open spec fn insert_args(key: Seq<char>, members: Seq<(Seq<char>, Seq<char>)>) -> Seq<
    Seq<char>,
> {
    Seq::new(
        1 + 2 * members.len(),
        |i: int|
            if i == 0 {
                key
            } else if i % 2 == 1 {
                members[(i - 1) / 2].0
            } else {
                members[(i - 2) / 2].1
            },
    )
}

/// One more member adds its score and its name.
proof fn lemma_insert_args_push(
    key: Seq<char>,
    members: Seq<(Seq<char>, Seq<char>)>,
    member: (Seq<char>, Seq<char>),
)
    ensures
        insert_args(key, members.push(member)) == insert_args(key, members).push(member.0).push(
            member.1,
        ),
{
    assert(insert_args(key, members.push(member)) =~= insert_args(key, members).push(
        member.0,
    ).push(member.1));
}

/// The `j`-th member of an insertion by point: the score of its cell and
/// its name, the third of its three arguments. A point without a cell
/// fails.
pub open spec fn point_member(args: Seq<Seq<char>>, cells: Seq<Option<u64>>, j: int) -> Result<
    (Seq<char>, Seq<char>),
    CommandError,
> {
    match cell_at(cells, j) {
        None => Err(CommandError::InvalidCoordinate),
        Some(h3ll) => Ok((decimal_digits(score_of(h3ll) as nat), args[4 + 3 * j])),
    }
}

/// The call that inserts members at points, from the arguments of the
/// command: its name, the key, then longitude, latitude and name of each
/// member. Fewer than one member, or arguments left over, are a syntax
/// error.
pub open spec fn add_call_of(args: Seq<Seq<char>>, cells: Seq<Option<u64>>) -> Result<
    Call,
    CommandError,
> {
    if args.len() < 5 || (args.len() - 2) % 3 != 0 {
        Err(CommandError::Syntax)
    } else {
        match all_or_first(
            Seq::new(((args.len() - 2) / 3) as nat, |j: int| point_member(args, cells, j)),
        ) {
            Err(e) => Err(e),
            Ok(members) => Ok(
                Call { command: StoreCommand::Zadd, args: insert_args(args[1], members) },
            ),
        }
    }
}

/// The longitude and latitude of each member of an insertion by point, as
/// they are written; none where the arguments are not of that command.
pub open spec fn points_of(args: Seq<Seq<char>>) -> Seq<(Seq<char>, Seq<char>)> {
    if args.len() < 5 || (args.len() - 2) % 3 != 0 {
        Seq::empty()
    } else {
        Seq::new(((args.len() - 2) / 3) as nat, |j: int| (args[2 + 3 * j], args[3 + 3 * j]))
    }
}

/// What two lists of texts say, pair by pair.
pub open spec fn pairs_of(list: Seq<(String, String)>) -> Seq<(Seq<char>, Seq<char>)> {
    Seq::new(list.len(), |i: int| (list[i].0@, list[i].1@))
}

/// Lists longitude and latitude of each member of an insertion by point:
/// the points whose cells have to be found.
pub fn h3add_points(args: &Vec<String>) -> (points: Vec<(String, String)>)
    ensures
        pairs_of(points@) == points_of(args.deep_view()),
{
    let mut points: Vec<(String, String)> = Vec::new();
    if args.len() < 5 || (args.len() - 2) % 3 != 0 {
        assert(pairs_of(points@) =~= points_of(args.deep_view()));
        return points;
    }
    let members: usize = (args.len() - 2) / 3;
    let mut j: usize = 0;
    while j < members
        invariant
            j <= members,
            members == (args@.len() - 2) / 3,
            5 <= args@.len() <= usize::MAX,
            (args@.len() - 2) % 3 == 0,
            points@.len() == j,
            forall|k: int|
                0 <= k < j ==> (#[trigger] points@[k]).0@ == args@[2 + 3 * k]@ && points@[k].1@
                    == args@[3 + 3 * k]@,
        decreases members - j,
    {
        points.push((args[2 + 3 * j].clone(), args[3 + 3 * j].clone()));
        j += 1;
    }
    assert(pairs_of(points@) =~= points_of(args.deep_view()));
    points
}

/// Builds the call that inserts members at points from the arguments of
/// the command and the cell of each point. The reply of the store is the
/// answer as it stands.
pub fn h3add_command(args: Vec<String>, cells: &Vec<Option<u64>>) -> (r: Result<
    StoreCall,
    CommandError,
>)
    ensures
        gives(r, add_call_of(args.deep_view(), cells@)),
{
    if args.len() < 5 || (args.len() - 2) % 3 != 0 {
        return Err(CommandError::Syntax);
    }
    let members: usize = (args.len() - 2) / 3;
    let ghost texts = args.deep_view();
    let ghost entries = Seq::new(members as nat, |j: int| point_member(texts, cells@, j));
    let ghost mut done: Seq<(Seq<char>, Seq<char>)> = Seq::empty();
    let mut newargs: Vec<String> = Vec::new();
    push_string(&mut newargs, args[1].clone());
    let mut j: usize = 0;
    assert(entries.take(0) =~= Seq::empty());
    assert(newargs.deep_view() =~= insert_args(texts[1], done));
    while j < members
        invariant
            j <= members,
            members == (args@.len() - 2) / 3,
            5 <= args@.len() <= usize::MAX,
            (args@.len() - 2) % 3 == 0,
            texts == args.deep_view(),
            entries == Seq::new(members as nat, |j: int| point_member(texts, cells@, j)),
            all_or_first(entries.take(j as int)) == Ok::<
                Seq<(Seq<char>, Seq<char>)>,
                CommandError,
            >(done),
            newargs.deep_view() == insert_args(texts[1], done),
        decreases members - j,
    {
        proof {
            lemma_all_or_first_step(entries, j as int);
        }
        if j >= cells.len() {
            return Err(CommandError::InvalidCoordinate);
        }
        match cells[j] {
            None => {
                return Err(CommandError::InvalidCoordinate);
            },
            Some(h3ll) => {
                proof {
                    lemma_insert_args_push(texts[1], done, entries[j as int]->Ok_0);
                    done = done.push(entries[j as int]->Ok_0);
                }
                push_string(&mut newargs, decimal_text(h3ll_to_score(h3ll)));
                push_string(&mut newargs, args[4 + 3 * j].clone());
            },
        }
        j += 1;
    }
    assert(entries.take(j as int) =~= entries);
    Ok(StoreCall { command: StoreCommand::Zadd, args: newargs })
}

/// The `j`-th member of an insertion by cell: the score of its cell and
/// its name, the second of its two arguments. A reference that is of no
/// cell fails, and so does a cell that is not of the finest resolution.
pub open spec fn indexed_member(args: Seq<Seq<char>>, cells: Seq<Option<u64>>, j: int) -> Result<
    (Seq<char>, Seq<char>),
    CommandError,
> {
    match cell_at(cells, j) {
        None => Err(CommandError::InvalidIndexString),
        Some(h3ll) => if resolution_of(h3ll) != 15 {
            Err(CommandError::InvalidResolution)
        } else {
            Ok((decimal_digits(score_of(h3ll) as nat), args[3 + 2 * j]))
        },
    }
}

/// The call that inserts members at cells, from the arguments of the
/// command: its name, the key, then reference and name of each member.
/// Fewer than one member, or an argument left over, are a syntax error.
pub open spec fn addbyindex_call_of(args: Seq<Seq<char>>, cells: Seq<Option<u64>>) -> Result<
    Call,
    CommandError,
> {
    if args.len() < 4 || args.len() % 2 != 0 {
        Err(CommandError::Syntax)
    } else {
        match all_or_first(
            Seq::new(((args.len() - 2) / 2) as nat, |j: int| indexed_member(args, cells, j)),
        ) {
            Err(e) => Err(e),
            Ok(members) => Ok(
                Call { command: StoreCommand::Zadd, args: insert_args(args[1], members) },
            ),
        }
    }
}

/// The reference of each member of an insertion by cell; none where the
/// arguments are not of that command.
pub open spec fn references_of(args: Seq<Seq<char>>) -> Seq<Seq<char>> {
    if args.len() < 4 || args.len() % 2 != 0 {
        Seq::empty()
    } else {
        Seq::new(((args.len() - 2) / 2) as nat, |j: int| args[2 + 2 * j])
    }
}

/// Lists the reference of each member of an insertion by cell: the
/// references whose cells have to be found.
pub fn h3addbyindex_references(args: &Vec<String>) -> (references: Vec<String>)
    ensures
        references.deep_view() == references_of(args.deep_view()),
{
    let mut references: Vec<String> = Vec::new();
    if args.len() < 4 || args.len() % 2 != 0 {
        assert(references.deep_view() =~= references_of(args.deep_view()));
        return references;
    }
    let members: usize = (args.len() - 2) / 2;
    let mut j: usize = 0;
    while j < members
        invariant
            j <= members,
            members == (args@.len() - 2) / 2,
            4 <= args@.len() <= usize::MAX,
            args@.len() % 2 == 0,
            references@.len() == j,
            forall|k: int| 0 <= k < j ==> (#[trigger] references@[k])@ == args@[2 + 2 * k]@,
        decreases members - j,
    {
        references.push(args[2 + 2 * j].clone());
        j += 1;
    }
    assert(references.deep_view() =~= references_of(args.deep_view()));
    references
}

/// Builds the call that inserts members at cells from the arguments of the
/// command and the cell of each reference. The reply of the store is the
/// answer as it stands.
pub fn h3addbyindex_command(args: Vec<String>, cells: &Vec<Option<u64>>) -> (r: Result<
    StoreCall,
    CommandError,
>)
    ensures
        gives(r, addbyindex_call_of(args.deep_view(), cells@)),
{
    if args.len() < 4 || args.len() % 2 != 0 {
        return Err(CommandError::Syntax);
    }
    let members: usize = (args.len() - 2) / 2;
    let ghost texts = args.deep_view();
    let ghost entries = Seq::new(members as nat, |j: int| indexed_member(texts, cells@, j));
    let ghost mut done: Seq<(Seq<char>, Seq<char>)> = Seq::empty();
    let mut newargs: Vec<String> = Vec::new();
    push_string(&mut newargs, args[1].clone());
    let mut j: usize = 0;
    assert(entries.take(0) =~= Seq::empty());
    assert(newargs.deep_view() =~= insert_args(texts[1], done));
    while j < members
        invariant
            j <= members,
            members == (args@.len() - 2) / 2,
            4 <= args@.len() <= usize::MAX,
            args@.len() % 2 == 0,
            texts == args.deep_view(),
            entries == Seq::new(members as nat, |j: int| indexed_member(texts, cells@, j)),
            all_or_first(entries.take(j as int)) == Ok::<
                Seq<(Seq<char>, Seq<char>)>,
                CommandError,
            >(done),
            newargs.deep_view() == insert_args(texts[1], done),
        decreases members - j,
    {
        proof {
            lemma_all_or_first_step(entries, j as int);
        }
        if j >= cells.len() {
            return Err(CommandError::InvalidIndexString);
        }
        match cells[j] {
            None => {
                return Err(CommandError::InvalidIndexString);
            },
            Some(h3ll) => {
                if get_resolution(h3ll) != MAX_RESOLUTION {
                    return Err(CommandError::InvalidResolution);
                }
                proof {
                    lemma_insert_args_push(texts[1], done, entries[j as int]->Ok_0);
                    done = done.push(entries[j as int]->Ok_0);
                }
                push_string(&mut newargs, decimal_text(h3ll_to_score(h3ll)));
                push_string(&mut newargs, args[3 + 2 * j].clone());
            },
        }
        j += 1;
    }
    assert(entries.take(j as int) =~= entries);
    Ok(StoreCall { command: StoreCommand::Zadd, args: newargs })
}

} // verus!
