//! The range query: which members of the store lie in a cell.
//!
//! The leaves of a cell have the scores between the scores of the cell's
//! two bounds, so one range query of the store finds them. Where the store
//! sends scores along, each is decoded to the cell it stands for. Whether
//! that cell exists is for the geospatial indexing library to say; its
//! answers come in as a list, one for each score in the order of the page.

use vstd::prelude::*;
use crate::error::{CommandError, Expected};
use crate::index::{max_child_of, min_child_of};
use crate::outcome::{
    all_or_first, lemma_all_ok, lemma_all_ok_back, lemma_all_or_first_step, lemma_first_failure,
};
use crate::score::{cell_score_range, index_of_score, score_of, score_to_h3ll};
use crate::store::{
    lemma_array_view, push_string, push_text, replies_of, Call, Reply, StoreCall, StoreCommand,
    StoreValue,
};
use crate::text::{
    decimal_digits, decimal_text, hex_digits, hex_text, parse_u64, signed_decimal_digits,
    signed_decimal_text, unsigned_decimal,
};

verus! {

/// The arguments that name the score range of the cell `h3ll` under `key`.
pub open spec fn range_args(key: Seq<char>, h3ll: u64) -> Seq<Seq<char>> {
    seq![
        key,
        decimal_digits(score_of(min_child_of(h3ll)) as nat),
        decimal_digits(score_of(max_child_of(h3ll)) as nat),
    ]
}

/// The call that lists the members of the cell `h3ll`: the range of its
/// scores, both ends included, with the scores where `withindices` is set
/// and with a window of `count` members from the `offset`-th on where
/// `limit` is set.
pub open spec fn members_call(
    key: Seq<char>,
    h3ll: u64,
    withindices: bool,
    limit: bool,
    offset: i64,
    count: i64,
) -> Call {
    Call {
        command: StoreCommand::ZrangeByScore,
        args: range_args(key, h3ll) + (if withindices {
            seq!["withscores"@]
        } else {
            seq![]
        }) + (if limit {
            seq![
                "limit"@,
                signed_decimal_digits(offset as int),
                signed_decimal_digits(count as int),
            ]
        } else {
            seq![]
        }),
    }
}

/// The call that counts the members of the cell `h3ll`.
pub open spec fn count_call(key: Seq<char>, h3ll: u64) -> Call {
    Call { command: StoreCommand::Zcount, args: range_args(key, h3ll) }
}

/// The key and the two ends of the score range of `h3ll`, as arguments.
fn range_arguments(key: &String, h3ll: u64) -> (args: Vec<String>)
    ensures
        args.deep_view() == range_args(key@, h3ll),
{
    let range = cell_score_range(h3ll);
    let mut args: Vec<String> = Vec::new();
    push_string(&mut args, key.clone());
    push_string(&mut args, decimal_text(range.0));
    push_string(&mut args, decimal_text(range.1));
    assert(args.deep_view() =~= range_args(key@, h3ll));
    args
}

/// Builds the call that lists the members of the store under `key` that
/// lie in the cell `h3ll`.
pub fn get_cell_members(
    key: &String,
    h3ll: u64,
    withindices: bool,
    limit: bool,
    offset: i64,
    count: i64,
) -> (call: StoreCall)
    ensures
        call@ == members_call(key@, h3ll, withindices, limit, offset, count),
{
    let mut args = range_arguments(key, h3ll);
    if withindices {
        push_text(&mut args, "withscores");
    }
    if limit {
        push_text(&mut args, "limit");
        push_string(&mut args, signed_decimal_text(offset));
        push_string(&mut args, signed_decimal_text(count));
    }
    assert(args.deep_view() =~= members_call(key@, h3ll, withindices, limit, offset, count).args);
    StoreCall { command: StoreCommand::ZrangeByScore, args }
}

/// Builds the call that counts the members of the store under `key` that
/// lie in the cell `h3ll`.
pub fn count_cell_members(key: &String, h3ll: u64) -> (call: StoreCall)
    ensures
        call@ == count_call(key@, h3ll),
{
    StoreCall { command: StoreCommand::Zcount, args: range_arguments(key, h3ll) }
}

/// The cell that the entry `v` of a page stands for where it is read as a
/// score: the text of a whole number, decoded.
pub open spec fn entry_cell(v: Reply) -> Option<u64> {
    match v {
        Reply::SimpleString(t) => match unsigned_decimal(t) {
            Some(score) => Some(index_of_score(score)),
            None => None,
        },
        _ => None,
    }
}

/// The cells that the scores of a page of names and scores stand for, one
/// for each pair; nothing where the score cannot be read.
pub open spec fn page_cells_of(elems: Seq<Reply>) -> Seq<Option<u64>> {
    Seq::new((elems.len() / 2) as nat, |k: int| entry_cell(elems[2 * k + 1]))
}

/// The `k`-th answer is there and says yes.
pub open spec fn accepts(accepted: Seq<bool>, k: int) -> bool {
    0 <= k < accepted.len() && accepted[k]
}

/// What becomes of the `i`-th entry of a page. Every entry has to be a
/// simple string. With `withindices` the entries at odd places are scores:
/// such an entry becomes the key of its cell where the score can be read
/// and the answer for its pair is yes, and fails the page otherwise. Every
/// other entry stays as it is.
pub open spec fn page_entry(elems: Seq<Reply>, i: int, withindices: bool, accepted: Seq<bool>)
    -> Result<Reply, CommandError> {
    match elems[i] {
        Reply::SimpleString(_) => if withindices && i % 2 == 1 {
            match entry_cell(elems[i]) {
                Some(cell) => if accepts(accepted, i / 2) {
                    Ok(Reply::SimpleString(hex_digits(cell as nat)))
                } else {
                    Err(CommandError::DecodeFailure)
                },
                None => Err(CommandError::DecodeFailure),
            }
        } else {
            Ok(elems[i])
        },
        _ => Err(CommandError::UnexpectedReply { expected: Expected::SimpleString }),
    }
}

/// What becomes of every entry of a page.
pub open spec fn page_entries(elems: Seq<Reply>, withindices: bool, accepted: Seq<bool>) -> Seq<
    Result<Reply, CommandError>,
> {
    Seq::new(elems.len(), |i: int| page_entry(elems, i, withindices, accepted))
}

/// The page with its scores turned into keys, or the failure of its first
/// entry that fails.
pub open spec fn page_of(elems: Seq<Reply>, withindices: bool, accepted: Seq<bool>) -> Result<
    Seq<Reply>,
    CommandError,
> {
    all_or_first(page_entries(elems, withindices, accepted))
}

/// A page is handed on whole or not at all: where it is handed on, no
/// entry is left out, every entry is what became of the entry in its place,
/// and with `withindices` the cell of every score exists.
pub proof fn lemma_page_is_whole(elems: Seq<Reply>, withindices: bool, accepted: Seq<bool>)
    requires
        page_of(elems, withindices, accepted) is Ok,
    ensures
        page_of(elems, withindices, accepted)->Ok_0.len() == elems.len(),
        forall|i: int|
            0 <= i < elems.len() ==> page_entry(elems, i, withindices, accepted) == Ok::<
                Reply,
                CommandError,
            >(#[trigger] page_of(elems, withindices, accepted)->Ok_0[i]),
        forall|k: int|
            withindices && 0 <= k && 2 * k + 1 < elems.len() ==> #[trigger] accepts(accepted, k)
                && entry_cell(elems[2 * k + 1]) is Some,
{
    let entries = page_entries(elems, withindices, accepted);
    lemma_all_ok_back(entries);
    lemma_all_ok(entries);
    assert forall|i: int| 0 <= i < elems.len() implies page_entry(
        elems,
        i,
        withindices,
        accepted,
    ) == Ok::<Reply, CommandError>(
        #[trigger] page_of(elems, withindices, accepted)->Ok_0[i],
    ) by {
        assert(entries[i] is Ok);
    }
    assert forall|k: int|
        withindices && 0 <= k && 2 * k + 1 < elems.len() implies #[trigger] accepts(accepted, k)
        && entry_cell(elems[2 * k + 1]) is Some by {
        assert(entries[2 * k + 1] is Ok);
    }
}

/// Where a page fails, it fails with what became of its first entry that
/// fails.
pub proof fn lemma_page_fails_first(elems: Seq<Reply>, withindices: bool, accepted: Seq<bool>)
    -> (at: int)
    requires
        page_of(elems, withindices, accepted) is Err,
    ensures
        0 <= at < elems.len(),
        page_entry(elems, at, withindices, accepted) == Err::<Reply, CommandError>(
            page_of(elems, withindices, accepted)->Err_0,
        ),
        forall|i: int|
            0 <= i < at ==> (#[trigger] page_entry(elems, i, withindices, accepted)) is Ok,
{
    let entries = page_entries(elems, withindices, accepted);
    let at = lemma_first_failure(entries);
    assert forall|i: int| 0 <= i < at implies (#[trigger] page_entry(
        elems,
        i,
        withindices,
        accepted,
    )) is Ok by {
        assert(entries[i] is Ok);
    }
    at
}

/// The result `r` says what the model `m` says: the same failure, or a
/// reply with the same content.
pub open spec fn tells(r: Result<StoreValue, CommandError>, m: Result<Reply, CommandError>)
    -> bool {
    match m {
        Ok(reply) => r is Ok && r->Ok_0@ == reply,
        Err(e) => r == Err::<StoreValue, CommandError>(e),
    }
}

/// The cells whose existence decides over a page of names and scores: for
/// each pair the cell that its score decodes to.
pub fn page_cells(elems: &Vec<StoreValue>) -> (cells: Vec<Option<u64>>)
    ensures
        cells@ == page_cells_of(replies_of(elems@)),
{
    let pairs: usize = elems.len() / 2;
    let mut cells: Vec<Option<u64>> = Vec::new();
    let mut k: usize = 0;
    while k < pairs
        invariant
            pairs == elems@.len() / 2,
            elems@.len() <= usize::MAX,
            k <= pairs,
            cells@.len() == k,
            forall|j: int| 0 <= j < k ==> cells@[j] == entry_cell(#[trigger] elems@[2 * j + 1]@),
        decreases pairs - k,
    {
        let cell: Option<u64> = match &elems[2 * k + 1] {
            StoreValue::SimpleString(text) => match parse_u64(text.as_str()) {
                Some(score) => Some(score_to_h3ll(score)),
                None => None,
            },
            _ => None,
        };
        cells.push(cell);
        k += 1;
    }
    assert(cells@ =~= page_cells_of(replies_of(elems@)));
    cells
}

/// Turns the scores of a page into the keys of their cells.
pub fn rewrite_page(elems: &Vec<StoreValue>, withindices: bool, accepted: &Vec<bool>) -> (r:
    Result<Vec<StoreValue>, CommandError>)
    ensures
        match page_of(replies_of(elems@), withindices, accepted@) {
            Ok(page) => r is Ok && replies_of(r->Ok_0@) == page,
            Err(e) => r == Err::<Vec<StoreValue>, CommandError>(e),
        },
{
    let ghost entries = page_entries(replies_of(elems@), withindices, accepted@);
    let mut page: Vec<StoreValue> = Vec::new();
    let mut i: usize = 0;
    assert(entries.take(0) =~= Seq::empty());
    assert(replies_of(page@) =~= Seq::empty());
    while i < elems.len()
        invariant
            i <= elems@.len(),
            entries == page_entries(replies_of(elems@), withindices, accepted@),
            all_or_first(entries.take(i as int)) == Ok::<Seq<Reply>, CommandError>(
                replies_of(page@),
            ),
        decreases elems@.len() - i,
    {
        proof {
            lemma_all_or_first_step(entries, i as int);
        }
        let ghost before = replies_of(page@);
        match &elems[i] {
            StoreValue::SimpleString(text) => {
                if withindices && i % 2 != 0 {
                    match parse_u64(text.as_str()) {
                        Some(score) => {
                            let cell: u64 = score_to_h3ll(score);
                            if i / 2 < accepted.len() && accepted[i / 2] {
                                page.push(StoreValue::SimpleString(hex_text(cell)));
                            } else {
                                return Err(CommandError::DecodeFailure);
                            }
                        },
                        None => {
                            return Err(CommandError::DecodeFailure);
                        },
                    }
                } else {
                    page.push(StoreValue::SimpleString(text.clone()));
                }
            },
            _ => {
                return Err(CommandError::UnexpectedReply { expected: Expected::SimpleString });
            },
        }
        assert(replies_of(page@) =~= before.push(entries[i as int]->Ok_0));
        i += 1;
    }
    assert(entries.take(i as int) =~= entries);
    Ok(page)
}

/// What is handed on for the reply of the store to a query for the members
/// of a cell: the page of a list with its scores turned into keys, nothing
/// for nothing, and a failure for any other reply.
pub open spec fn members_reply_of(reply: Reply, withindices: bool, accepted: Seq<bool>) -> Result<
    Reply,
    CommandError,
> {
    match reply {
        Reply::Array(elems) => match page_of(elems, withindices, accepted) {
            Ok(page) => Ok(Reply::Array(page)),
            Err(e) => Err(e),
        },
        Reply::Null => Ok(Reply::Null),
        _ => Err(CommandError::UnexpectedReply { expected: Expected::ArrayOrNull }),
    }
}

/// The cells whose existence decides over the reply to a query for the
/// members of a cell: those of its page where scores were asked for, else
/// none.
pub open spec fn members_cells_of(reply: Reply, withindices: bool) -> Seq<Option<u64>> {
    match reply {
        Reply::Array(elems) => if withindices {
            page_cells_of(elems)
        } else {
            Seq::empty()
        },
        _ => Seq::empty(),
    }
}

/// Lists the cells that the geospatial indexing library has to be asked
/// about before the reply to a query for the members of a cell is handed
/// on.
pub fn cell_members_cells(reply: &StoreValue, withindices: bool) -> (cells: Vec<Option<u64>>)
    ensures
        cells@ == members_cells_of(reply@, withindices),
{
    match reply {
        StoreValue::Array(elems) => {
            proof {
                lemma_array_view(*elems);
            }
            if withindices {
                page_cells(elems)
            } else {
                Vec::new()
            }
        },
        _ => Vec::new(),
    }
}

/// Hands on the reply of the store to a query for the members of a cell,
/// with every score turned into the key of its cell. `accepted` holds for
/// each pair of the page whether the cell of its score exists. One score
/// that cannot be read, or whose cell does not exist, fails the whole call.
pub fn cell_members_reply(reply: &StoreValue, withindices: bool, accepted: &Vec<bool>) -> (r:
    Result<StoreValue, CommandError>)
    ensures
        tells(r, members_reply_of(reply@, withindices, accepted@)),
{
    match reply {
        StoreValue::Array(elems) => {
            proof {
                lemma_array_view(*elems);
            }
            match rewrite_page(elems, withindices, accepted) {
                Ok(page) => {
                    proof {
                        lemma_array_view(page);
                    }
                    Ok(StoreValue::Array(page))
                },
                Err(e) => Err(e),
            }
        },
        StoreValue::Null => Ok(StoreValue::Null),
        _ => Err(CommandError::UnexpectedReply { expected: Expected::ArrayOrNull }),
    }
}

} // verus!
