//! The ordered member store as this library sees it: the values it replies
//! with and the calls made to it.

use vstd::prelude::*;

verus! {

/// A reply of the store.
#[derive(Debug, PartialEq, Eq)]
pub enum StoreValue {
    /// Nothing is there.
    Null,
    /// A status or a member name.
    SimpleString(String),
    /// A string of bytes, read as text.
    BulkString(String),
    /// A whole number.
    Integer(i64),
    /// A score that came as a number, held by its whole part.
    Score(u64),
    /// A list of replies.
    Array(Vec<StoreValue>),
    /// A reply of any other kind.
    Other,
}

/// What a reply says, with every text as its characters.
pub enum Reply {
    Null,
    SimpleString(Seq<char>),
    BulkString(Seq<char>),
    Integer(i64),
    Score(u64),
    Array(Seq<Reply>),
    Other,
}

/// What the reply `v` says.
pub open spec fn reply_of(v: StoreValue) -> Reply
    decreases v,
{
    match v {
        StoreValue::Null => Reply::Null,
        StoreValue::SimpleString(s) => Reply::SimpleString(s@),
        StoreValue::BulkString(s) => Reply::BulkString(s@),
        StoreValue::Integer(i) => Reply::Integer(i),
        StoreValue::Score(n) => Reply::Score(n),
        StoreValue::Array(items) => Reply::Array(
            Seq::new(
                items@.len(),
                |i: int|
                    if 0 <= i < items@.len() {
                        reply_of(items@[i])
                    } else {
                        Reply::Null
                    },
            ),
        ),
        StoreValue::Other => Reply::Other,
    }
}

impl View for StoreValue {
    type V = Reply;

    open spec fn view(&self) -> Reply {
        reply_of(*self)
    }
}

/// What each reply of a list says.
pub open spec fn replies_of(items: Seq<StoreValue>) -> Seq<Reply> {
    Seq::new(items.len(), |i: int| items[i]@)
}

/// A list says what its replies say, one by one.
pub proof fn lemma_array_view(items: Vec<StoreValue>)
    ensures
        StoreValue::Array(items)@ == Reply::Array(replies_of(items@)),
{
    let said = StoreValue::Array(items)@->Array_0;
    assert(said.len() == items@.len());
    assert forall|i: int| 0 <= i < items@.len() implies said[i] == #[trigger] replies_of(
        items@,
    )[i] by {}
    assert(said =~= replies_of(items@));
}

/// The commands of the store that this library asks for.
#[derive(Clone, Copy, Debug, PartialEq, Eq, Structural)]
pub enum StoreCommand {
    /// Insert members with their scores.
    Zadd,
    /// The score of one member.
    Zscore,
    /// The members whose scores lie in a range.
    ZrangeByScore,
    /// How many members have scores in a range.
    Zcount,
    /// One page of an enumeration of all members.
    Zscan,
    /// Remove members.
    Zrem,
}

impl StoreCommand {
    /// The name that the store knows the command by.
    pub open spec fn name_of(self) -> Seq<char> {
        match self {
            StoreCommand::Zadd => "zadd"@,
            StoreCommand::Zscore => "zscore"@,
            StoreCommand::ZrangeByScore => "zrangebyscore"@,
            StoreCommand::Zcount => "zcount"@,
            StoreCommand::Zscan => "zscan"@,
            StoreCommand::Zrem => "zrem"@,
        }
    }

    /// The name that the store knows the command by.
    pub fn name(&self) -> (name: &'static str)
        ensures
            name@ == self.name_of(),
    {
        match self {
            StoreCommand::Zadd => "zadd",
            StoreCommand::Zscore => "zscore",
            StoreCommand::ZrangeByScore => "zrangebyscore",
            StoreCommand::Zcount => "zcount",
            StoreCommand::Zscan => "zscan",
            StoreCommand::Zrem => "zrem",
        }
    }
}

/// One call to the store: a command and its arguments, the key first.
#[derive(Debug, PartialEq, Eq)]
pub struct StoreCall {
    pub command: StoreCommand,
    pub args: Vec<String>,
}

/// What a call says, with every argument as its characters.
pub struct Call {
    pub command: StoreCommand,
    pub args: Seq<Seq<char>>,
}

impl View for StoreCall {
    type V = Call;

    open spec fn view(&self) -> Call {
        Call { command: self.command, args: self.args.deep_view() }
    }
}

/// The result `r` says what the model `m` says: the same failure, or a call
/// with the same content.
pub open spec fn gives(r: Result<StoreCall, crate::error::CommandError>, m: Result<
    Call,
    crate::error::CommandError,
>) -> bool {
    match m {
        Ok(call) => r is Ok && r->Ok_0@ == call,
        Err(e) => r == Err::<StoreCall, crate::error::CommandError>(e),
    }
}

/// Appends `text` to `list`.
pub fn push_string(list: &mut Vec<String>, text: String)
    ensures
        final(list).deep_view() == old(list).deep_view().push(text@),
{
    list.push(text);
    assert(list.deep_view() =~= old(list).deep_view().push(text@));
}

/// Appends a copy of `text` to `list`.
pub fn push_text(list: &mut Vec<String>, text: &str)
    ensures
        final(list).deep_view() == old(list).deep_view().push(text@),
{
    list.push(text.to_owned());
    assert(list.deep_view() =~= old(list).deep_view().push(text@));
}

} // verus!
