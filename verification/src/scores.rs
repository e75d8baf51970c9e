//! The scores of named members, and the cells they stand for.

use vstd::prelude::*;
use crate::error::{CommandError, Expected};
use crate::members::accepts;
use crate::outcome::{all_or_first, lemma_all_or_first_step, says};
use crate::score::{index_of_score, score_to_h3ll};
use crate::store::{
    lemma_array_view, push_string, replies_of, Call, Reply, StoreCall, StoreCommand, StoreValue,
};
use crate::text::{hex_digits, hex_text, parse_u64, unsigned_decimal};

verus! {

/// The call that asks for the score of the member `elem` under `key`.
pub open spec fn score_call(key: Seq<char>, elem: Seq<char>) -> Call {
    Call { command: StoreCommand::Zscore, args: seq![key, elem] }
}

/// Builds the call that asks for the score of the member `elem` under `key`.
pub fn zscore_call(key: &String, elem: &String) -> (call: StoreCall)
    ensures
        call@ == score_call(key@, elem@),
{
    let mut args: Vec<String> = Vec::new();
    push_string(&mut args, key.clone());
    push_string(&mut args, elem.clone());
    assert(args.deep_view() =~= seq![key@, elem@]);
    StoreCall { command: StoreCommand::Zscore, args }
}

/// The score that the reply `v` to a question for a score holds: a number
/// by its whole part, a text by the whole number it stands for, nothing for
/// nothing where the member is not there. A text that is no whole number
/// and a reply of another kind fail.
pub open spec fn score_of_reply(v: Reply) -> Result<Option<u64>, CommandError> {
    match v {
        Reply::Score(n) => Ok(Some(n)),
        Reply::SimpleString(t) => match unsigned_decimal(t) {
            Some(n) => Ok(Some(n)),
            None => Err(CommandError::DecodeFailure),
        },
        Reply::Null => Ok(None),
        _ => Err(CommandError::UnexpectedReply { expected: Expected::ScoreOrNull }),
    }
}

/// Reads the score out of one reply to a question for a score.
pub fn zscore_reply(reply: &StoreValue) -> (r: Result<Option<u64>, CommandError>)
    ensures
        r == score_of_reply(reply@),
{
    match reply {
        StoreValue::Score(n) => Ok(Some(*n)),
        StoreValue::SimpleString(text) => match parse_u64(text.as_str()) {
            Some(n) => Ok(Some(n)),
            None => Err(CommandError::DecodeFailure),
        },
        StoreValue::Null => Ok(None),
        _ => Err(CommandError::UnexpectedReply { expected: Expected::ScoreOrNull }),
    }
}

/// The scores that a list of replies holds, one reply for each member that
/// was asked for, or the failure of the first reply that fails.
pub open spec fn scores_of_replies(replies: Seq<Reply>) -> Result<Seq<Option<u64>>, CommandError> {
    all_or_first(Seq::new(replies.len(), |i: int| score_of_reply(replies[i])))
}

/// Reads the scores out of the replies to the questions for the scores of
/// a list of members.
pub fn get_zscores(replies: &Vec<StoreValue>) -> (r: Result<Vec<Option<u64>>, CommandError>)
    ensures
        says(r, scores_of_replies(replies_of(replies@))),
{
    let ghost entries = Seq::new(
        replies@.len(),
        |i: int| score_of_reply(replies_of(replies@)[i]),
    );
    let mut scores: Vec<Option<u64>> = Vec::new();
    let mut i: usize = 0;
    assert(entries.take(0) =~= Seq::empty());
    while i < replies.len()
        invariant
            i <= replies@.len(),
            entries == Seq::new(
                replies@.len(),
                |i: int| score_of_reply(replies_of(replies@)[i]),
            ),
            all_or_first(entries.take(i as int)) == Ok::<Seq<Option<u64>>, CommandError>(scores@),
        decreases replies@.len() - i,
    {
        proof {
            lemma_all_or_first_step(entries, i as int);
        }
        match zscore_reply(&replies[i]) {
            Ok(score) => {
                scores.push(score);
            },
            Err(e) => {
                return Err(e);
            },
        }
        i += 1;
    }
    assert(entries.take(i as int) =~= entries);
    Ok(scores)
}

/// The cell that each score decodes to; nothing where there is no score.
pub open spec fn cells_of_scores(scores: Seq<Option<u64>>) -> Seq<Option<u64>> {
    Seq::new(
        scores.len(),
        |i: int|
            match scores[i] {
                Some(score) => Some(index_of_score(score)),
                None => None,
            },
    )
}

/// Decodes each score: the cells that the geospatial indexing library has
/// to be asked about.
pub fn score_cells(scores: &Vec<Option<u64>>) -> (cells: Vec<Option<u64>>)
    ensures
        cells@ == cells_of_scores(scores@),
{
    let mut cells: Vec<Option<u64>> = Vec::new();
    let mut i: usize = 0;
    while i < scores.len()
        invariant
            i <= scores@.len(),
            cells@.len() == i,
            forall|j: int| 0 <= j < i ==> cells@[j] == cells_of_scores(scores@)[j],
        decreases scores@.len() - i,
    {
        let cell: Option<u64> = match scores[i] {
            Some(score) => Some(score_to_h3ll(score)),
            None => None,
        };
        cells.push(cell);
        i += 1;
    }
    assert(cells@ =~= cells_of_scores(scores@));
    cells
}

/// What becomes of the `i`-th score: the cell it decodes to where the
/// answer for it is yes, a failure where the answer is no, and nothing
/// where there is no score.
pub open spec fn checked_cell(scores: Seq<Option<u64>>, accepted: Seq<bool>, i: int) -> Result<
    Option<u64>,
    CommandError,
> {
    match scores[i] {
        Some(score) => if accepts(accepted, i) {
            Ok(Some(index_of_score(score)))
        } else {
            Err(CommandError::DecodeFailure)
        },
        None => Ok(None),
    }
}

/// The cells of the scores where each of them exists, else a failure.
pub open spec fn checked_cells(scores: Seq<Option<u64>>, accepted: Seq<bool>) -> Result<
    Seq<Option<u64>>,
    CommandError,
> {
    all_or_first(Seq::new(scores.len(), |i: int| checked_cell(scores, accepted, i)))
}

/// Turns scores into the cells they stand for. `accepted` holds for each
/// score whether the cell it decodes to exists. One score whose cell does
/// not exist fails the whole call.
pub fn get_zscores_as_h3_indices(scores: &Vec<Option<u64>>, accepted: &Vec<bool>) -> (r: Result<
    Vec<Option<u64>>,
    CommandError,
>)
    ensures
        says(r, checked_cells(scores@, accepted@)),
{
    let ghost entries = Seq::new(scores@.len(), |i: int| checked_cell(scores@, accepted@, i));
    let mut cells: Vec<Option<u64>> = Vec::new();
    let mut i: usize = 0;
    assert(entries.take(0) =~= Seq::empty());
    while i < scores.len()
        invariant
            i <= scores@.len(),
            entries == Seq::new(scores@.len(), |i: int| checked_cell(scores@, accepted@, i)),
            all_or_first(entries.take(i as int)) == Ok::<Seq<Option<u64>>, CommandError>(cells@),
        decreases scores@.len() - i,
    {
        proof {
            lemma_all_or_first_step(entries, i as int);
        }
        match scores[i] {
            Some(score) => {
                if i < accepted.len() && accepted[i] {
                    cells.push(Some(score_to_h3ll(score)));
                } else {
                    return Err(CommandError::DecodeFailure);
                }
            },
            None => {
                cells.push(None);
            },
        }
        i += 1;
    }
    assert(entries.take(i as int) =~= entries);
    Ok(cells)
}

/// The reply that lists the key of each cell, and nothing where there is
/// no cell.
pub open spec fn keys_reply(cells: Seq<Option<u64>>) -> Reply {
    Reply::Array(
        Seq::new(
            cells.len(),
            |i: int|
                match cells[i] {
                    Some(cell) => Reply::SimpleString(hex_digits(cell as nat)),
                    None => Reply::Null,
                },
        ),
    )
}

/// Builds the reply that gives for each member the key of its cell.
pub fn h3index_reply(cells: &Vec<Option<u64>>) -> (reply: StoreValue)
    ensures
        reply@ == keys_reply(cells@),
{
    let mut keys: Vec<StoreValue> = Vec::new();
    let mut i: usize = 0;
    while i < cells.len()
        invariant
            i <= cells@.len(),
            keys@.len() == i,
            forall|j: int| 0 <= j < i ==> (#[trigger] keys@[j])@ == keys_reply(cells@)->Array_0[j],
        decreases cells@.len() - i,
    {
        let key: StoreValue = match cells[i] {
            Some(cell) => StoreValue::SimpleString(hex_text(cell)),
            None => StoreValue::Null,
        };
        keys.push(key);
        i += 1;
    }
    proof {
        lemma_array_view(keys);
        assert(replies_of(keys@) =~= keys_reply(cells@)->Array_0);
    }
    StoreValue::Array(keys)
}

} // verus!
