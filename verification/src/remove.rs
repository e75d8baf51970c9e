//! The command that removes the members of cells.
//!
//! The store removes by name, not by cell, so the command works in two
//! steps that together are not atomic: for each cell it asks for the names
//! of the members in it, and at the end it removes the names it was given.
//! Where it was given none it asks for nothing to be removed.

use vstd::prelude::*;
use crate::error::{CommandError, Expected};
use crate::members::{get_cell_members, members_call};
use crate::outcome::{all_or_first, lemma_all_or_first_step};
use crate::store::{
    gives, lemma_array_view, push_string, replies_of, Call, Reply, StoreCall, StoreCommand,
    StoreValue,
};

verus! {

/// A removal under way.
#[derive(Debug, PartialEq, Eq)]
pub struct Removal {
    /// The key of the store to remove from.
    pub key: String,
    /// The references to the cells, as they were written.
    pub references: Vec<String>,
    /// How many of the cells have been asked about.
    pub asked: usize,
    /// The names of the members found so far.
    pub names: Vec<String>,
}

/// What a removal under way holds, with every text as its characters.
pub struct RemovalState {
    pub key: Seq<char>,
    pub references: Seq<Seq<char>>,
    pub asked: nat,
    pub names: Seq<Seq<char>>,
}

impl View for Removal {
    type V = RemovalState;

    open spec fn view(&self) -> RemovalState {
        RemovalState {
            key: self.key@,
            references: self.references.deep_view(),
            asked: self.asked as nat,
            names: self.names.deep_view(),
        }
    }
}

/// How a removal ends.
#[derive(Debug, PartialEq, Eq)]
pub enum RemovalEnd {
    /// With this call to the store, whose reply is the answer.
    Remove(StoreCall),
    /// With this answer and no call to the store.
    Done(StoreValue),
}

/// The removal that a command starts, from its arguments: its name, the
/// key, then the references to one cell or more. Fewer than three
/// arguments are a syntax error.
pub open spec fn removal_of(args: Seq<Seq<char>>) -> Result<RemovalState, CommandError> {
    if args.len() < 3 {
        Err(CommandError::Syntax)
    } else {
        Ok(
            RemovalState {
                key: args[1],
                references: args.subrange(2, args.len() as int),
                asked: 0,
                names: Seq::empty(),
            },
        )
    }
}

/// The names that the reply to a query for the members of a cell holds: the
/// entries of a list, each of which has to be a simple string; none for
/// nothing; a failure for any other reply.
pub open spec fn names_of_reply(reply: Reply) -> Result<Seq<Seq<char>>, CommandError> {
    match reply {
        Reply::Array(elems) => all_or_first(
            Seq::new(
                elems.len(),
                |i: int|
                    match elems[i] {
                        Reply::SimpleString(name) => Ok(name),
                        _ => Err(
                            CommandError::UnexpectedReply { expected: Expected::SimpleString },
                        ),
                    },
            ),
        ),
        Reply::Null => Ok(Seq::empty()),
        _ => Err(CommandError::UnexpectedReply { expected: Expected::ArrayOrNull }),
    }
}

/// Starts the removal of the members of the cells that the arguments of
/// the command refer to.
pub fn h3rembyindex_command(args: Vec<String>) -> (r: Result<Removal, CommandError>)
    ensures
        match removal_of(args.deep_view()) {
            Ok(state) => r is Ok && r->Ok_0@ == state,
            Err(e) => r is Err && r->Err_0 == e,
        },
{
    if args.len() < 3 {
        return Err(CommandError::Syntax);
    }
    let mut references: Vec<String> = Vec::new();
    let mut i: usize = 2;
    while i < args.len()
        invariant
            2 <= i <= args@.len(),
            references@.len() == i - 2,
            forall|k: int| 0 <= k < i - 2 ==> (#[trigger] references@[k])@ == args@[2 + k]@,
        decreases args@.len() - i,
    {
        references.push(args[i].clone());
        i += 1;
    }
    let removal = Removal { key: args[1].clone(), references, asked: 0, names: Vec::new() };
    assert(removal@.references =~= args.deep_view().subrange(2, args@.len() as int));
    assert(removal@.names =~= Seq::empty());
    Ok(removal)
}

impl Removal {
    /// The reference to the cell to ask about next, or nothing where every
    /// cell has been asked about.
    pub fn reference(&self) -> (reference: Option<&String>)
        ensures
            self@.asked >= self@.references.len() ==> reference is None,
            self@.asked < self@.references.len() ==> reference == Some(
                &self.references@[self.asked as int],
            ),
    {
        if self.asked < self.references.len() {
            Some(&self.references[self.asked])
        } else {
            None
        }
    }

    /// Builds the call that asks for the names of the members of the next
    /// cell, given the cell that its reference is of. A reference that is
    /// of no cell fails the command.
    pub fn query(&self, cell: Option<u64>) -> (r: Result<StoreCall, CommandError>)
        ensures
            gives(
                r,
                match cell {
                    Some(h3ll) => Ok(members_call(self@.key, h3ll, false, false, 0, 0)),
                    None => Err(CommandError::InvalidIndexString),
                },
            ),
    {
        match cell {
            Some(h3ll) => Ok(get_cell_members(&self.key, h3ll, false, false, 0, 0)),
            None => Err(CommandError::InvalidIndexString),
        }
    }

    /// Takes in the reply to the query for the next cell: its names are
    /// added to those found so far, and the cell counts as asked about. The
    /// reply is that of a query for names only: a list of simple strings, or
    /// nothing.
    pub fn absorb(self, reply: &StoreValue) -> (r: Result<Removal, CommandError>)
        ensures
            match names_of_reply(reply@) {
                Ok(names) => r is Ok && r->Ok_0@ == (RemovalState {
                    key: self@.key,
                    references: self@.references,
                    asked: if self@.asked < self@.references.len() {
                        self@.asked + 1
                    } else {
                        self@.asked
                    },
                    names: self@.names + names,
                }),
                Err(e) => r is Err && r->Err_0 == e,
            },
    {
        let mut removal = self;
        let ghost start = removal@.names;
        match reply {
            StoreValue::Array(elems) => {
                proof {
                    lemma_array_view(*elems);
                }
                let ghost entries = Seq::new(
                    elems@.len(),
                    |i: int|
                        match replies_of(elems@)[i] {
                            Reply::SimpleString(name) => Ok::<Seq<char>, CommandError>(name),
                            _ => Err(
                                CommandError::UnexpectedReply {
                                    expected: Expected::SimpleString,
                                },
                            ),
                        },
                );
                let ghost mut found: Seq<Seq<char>> = Seq::empty();
                let mut i: usize = 0;
                assert(entries.take(0) =~= Seq::empty());
                assert(removal@.names =~= start + found);
                while i < elems.len()
                    invariant
                        i <= elems@.len(),
                        reply@ == Reply::Array(replies_of(elems@)),
                        entries == Seq::new(
                            elems@.len(),
                            |i: int|
                                match replies_of(elems@)[i] {
                                    Reply::SimpleString(name) => Ok::<Seq<char>, CommandError>(
                                        name,
                                    ),
                                    _ => Err(
                                        CommandError::UnexpectedReply {
                                            expected: Expected::SimpleString,
                                        },
                                    ),
                                },
                        ),
                        all_or_first(entries.take(i as int)) == Ok::<Seq<Seq<char>>, CommandError>(
                            found,
                        ),
                        removal@.names == start + found,
                        removal@.key == self@.key,
                        removal@.references == self@.references,
                        removal.asked == self.asked,
                    decreases elems@.len() - i,
                {
                    proof {
                        lemma_all_or_first_step(entries, i as int);
                    }
                    match &elems[i] {
                        StoreValue::SimpleString(name) => {
                            push_string(&mut removal.names, name.clone());
                            proof {
                                found = found.push(name@);
                                assert(removal@.names =~= start + found);
                            }
                        },
                        _ => {
                            return Err(
                                CommandError::UnexpectedReply { expected: Expected::SimpleString },
                            );
                        },
                    }
                    i += 1;
                }
                assert(entries.take(i as int) =~= entries);
            },
            StoreValue::Null => {
                assert(removal@.names =~= start + Seq::<Seq<char>>::empty());
            },
            _ => {
                return Err(CommandError::UnexpectedReply { expected: Expected::ArrayOrNull });
            },
        }
        if removal.asked < removal.references.len() {
            removal.asked = removal.asked + 1;
        }
        Ok(removal)
    }

    /// Ends the removal. With names found the store is called to remove
    /// exactly those names under the key. With none found nothing is
    /// removed: the answer is that 0 members were removed, and the store is
    /// not called.
    pub fn finish(self) -> (end: RemovalEnd)
        ensures
            self@.names.len() > 0 ==> end is Remove && end->Remove_0@ == (Call {
                command: StoreCommand::Zrem,
                args: seq![self@.key] + self@.names,
            }),
            self@.names.len() == 0 ==> end is Done && end->Done_0@ == Reply::Integer(0),
    {
        if self.names.len() > 0 {
            let mut args: Vec<String> = Vec::new();
            push_string(&mut args, self.key.clone());
            let mut i: usize = 0;
            assert(args.deep_view() =~= seq![self@.key] + self@.names.take(0));
            while i < self.names.len()
                invariant
                    i <= self.names@.len(),
                    args.deep_view() == seq![self@.key] + self@.names.take(i as int),
                decreases self.names@.len() - i,
            {
                push_string(&mut args, self.names[i].clone());
                assert(args.deep_view() =~= seq![self@.key] + self@.names.take(i + 1));
                i += 1;
            }
            assert(self@.names.take(i as int) =~= self@.names);
            RemovalEnd::Remove(StoreCall { command: StoreCommand::Zrem, args })
        } else {
            RemovalEnd::Done(StoreValue::Integer(0))
        }
    }
}

} // verus!
