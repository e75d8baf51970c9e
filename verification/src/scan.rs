//! The enumeration of all members, page by page, with scores turned into
//! the keys of their cells.

use vstd::prelude::*;
use crate::error::{CommandError, Expected};
use crate::members::{page_cells, page_cells_of, page_of, tells, rewrite_page};
use crate::store::{
    gives, lemma_array_view, push_string, push_text, replies_of, Call, Reply, StoreCall,
    StoreCommand, StoreValue,
};
use crate::text::{parse_i64, signed_decimal, signed_decimal_digits, signed_decimal_text};
use crate::unit::{is_word, uppercase_all, uppers_of, word_at};

verus! {

/// What the options of an enumeration ask for.
pub struct ScanChoice {
    /// Only members whose names match this pattern.
    pub pattern: Option<Seq<char>>,
    /// About this many members to a page.
    pub count: Option<i64>,
}

/// The characters of a text that may be there.
pub open spec fn chars_of(text: Option<String>) -> Option<Seq<char>> {
    match text {
        Some(t) => Some(t@),
        None => None,
    }
}

/// What the options from the `from`-th argument on ask for, after those
/// before them asked for `sofar`. `MATCH` takes a pattern and `COUNT` a
/// whole number; an option given twice counts as given last. `uppers` are
/// the arguments in upper case.
pub open spec fn scan_choice_from(
    args: Seq<Seq<char>>,
    uppers: Seq<Seq<char>>,
    from: int,
    sofar: ScanChoice,
) -> Result<ScanChoice, CommandError>
    decreases args.len() - from,
{
    if from < 0 || from >= args.len() {
        Ok(sofar)
    } else if word_at(uppers, from, "MATCH"@) {
        if from + 1 >= args.len() {
            Err(CommandError::WrongArity)
        } else {
            scan_choice_from(
                args,
                uppers,
                from + 2,
                ScanChoice { pattern: Some(args[from + 1]), count: sofar.count },
            )
        }
    } else if word_at(uppers, from, "COUNT"@) {
        if from + 1 >= args.len() {
            Err(CommandError::WrongArity)
        } else {
            match signed_decimal(args[from + 1]) {
                Some(n) => scan_choice_from(
                    args,
                    uppers,
                    from + 2,
                    ScanChoice { pattern: sofar.pattern, count: Some(n) },
                ),
                None => Err(CommandError::NotAnInteger { position: (from + 1) as usize }),
            }
        }
    } else {
        Err(CommandError::Syntax)
    }
}

/// The arguments of the call for one page: key and cursor, then the pattern
/// and the count where they were asked for.
pub open spec fn scan_args(key: Seq<char>, cursor: i64, choice: ScanChoice) -> Seq<Seq<char>> {
    seq![key, signed_decimal_digits(cursor as int)] + (match choice.pattern {
        Some(pattern) => seq!["match"@, pattern],
        None => seq![],
    }) + (match choice.count {
        Some(n) => seq!["count"@, signed_decimal_digits(n as int)],
        None => seq![],
    })
}

/// The call for one page of an enumeration, from the arguments of the
/// command: its name, the key, the cursor, then options. Fewer than three
/// arguments are a syntax error, and so is an option that is not known.
pub open spec fn scan_call_of(args: Seq<Seq<char>>, uppers: Seq<Seq<char>>) -> Result<
    Call,
    CommandError,
> {
    if args.len() < 3 {
        Err(CommandError::Syntax)
    } else {
        match signed_decimal(args[2]) {
            None => Err(CommandError::InvalidCursor),
            Some(cursor) => match scan_choice_from(
                args,
                uppers,
                3,
                ScanChoice { pattern: None, count: None },
            ) {
                Err(e) => Err(e),
                Ok(choice) => Ok(
                    Call { command: StoreCommand::Zscan, args: scan_args(args[1], cursor, choice) },
                ),
            },
        }
    }
}

/// Builds the call for one page of an enumeration from the arguments of
/// the command and the same arguments in upper case.
pub fn h3scan_plan(args: &Vec<String>, uppers: &Vec<String>) -> (r: Result<StoreCall, CommandError>)
    ensures
        gives(r, scan_call_of(args.deep_view(), uppers.deep_view())),
{
    if args.len() < 3 {
        return Err(CommandError::Syntax);
    }
    let cursor: i64 = match parse_i64(args[2].as_str()) {
        Some(cursor) => cursor,
        None => {
            return Err(CommandError::InvalidCursor);
        },
    };
    let mut pattern: Option<String> = None;
    let mut count: Option<i64> = None;
    let ghost texts = args.deep_view();
    let ghost words = uppers.deep_view();
    let ghost start = ScanChoice { pattern: None, count: None };
    let mut i: usize = 3;
    while i < args.len()
        invariant
            3 <= i,
            3 <= args@.len(),
            signed_decimal(texts[2]) == Some(cursor),
            start == (ScanChoice { pattern: None, count: None }),
            texts == args.deep_view(),
            words == uppers.deep_view(),
            texts.len() == args@.len(),
            scan_choice_from(texts, words, 3, start) == scan_choice_from(
                texts,
                words,
                i as int,
                ScanChoice { pattern: chars_of(pattern), count },
            ),
        decreases args@.len() - i,
    {
        if is_word(uppers, i, "MATCH") {
            if i + 1 >= args.len() {
                return Err(CommandError::WrongArity);
            }
            pattern = Some(args[i + 1].clone());
            i += 2;
        } else if is_word(uppers, i, "COUNT") {
            if i + 1 >= args.len() {
                return Err(CommandError::WrongArity);
            }
            match parse_i64(args[i + 1].as_str()) {
                Some(n) => {
                    count = Some(n);
                },
                None => {
                    return Err(CommandError::NotAnInteger { position: i + 1 });
                },
            }
            i += 2;
        } else {
            return Err(CommandError::Syntax);
        }
    }
    let ghost choice = ScanChoice { pattern: chars_of(pattern), count };
    let mut call_args: Vec<String> = Vec::new();
    push_string(&mut call_args, args[1].clone());
    push_string(&mut call_args, signed_decimal_text(cursor));
    match pattern {
        Some(p) => {
            push_text(&mut call_args, "match");
            push_string(&mut call_args, p);
        },
        None => {},
    }
    match count {
        Some(n) => {
            push_text(&mut call_args, "count");
            push_string(&mut call_args, signed_decimal_text(n));
        },
        None => {},
    }
    assert(call_args.deep_view() =~= scan_args(texts[1], cursor, choice));
    Ok(StoreCall { command: StoreCommand::Zscan, args: call_args })
}

/// Builds the call for one page of an enumeration from the arguments of
/// the command. Options are read in whatever case they are written.
pub fn h3scan_command(args: Vec<String>) -> (r: Result<StoreCall, CommandError>)
    ensures
        gives(r, scan_call_of(args.deep_view(), uppercase_all(args.deep_view()))),
{
    let uppers = uppers_of(&args);
    h3scan_plan(&args, &uppers)
}

/// What is handed on for the reply of the store to the call for a page: a
/// list of the next cursor, which has to be a simple string, and the page,
/// which has to be a list, with every score turned into the key of its
/// cell; nothing for nothing; a failure for any other reply.
pub open spec fn scan_reply_of(reply: Reply, accepted: Seq<bool>) -> Result<Reply, CommandError> {
    match reply {
        Reply::Array(outer) => if outer.len() < 1 || !(outer[0] is SimpleString) {
            Err(CommandError::UnexpectedReply { expected: Expected::SimpleString })
        } else if outer.len() < 2 || !(outer[1] is Array) {
            Err(CommandError::UnexpectedReply { expected: Expected::Array })
        } else {
            match page_of(outer[1]->Array_0, true, accepted) {
                Ok(page) => Ok(Reply::Array(seq![outer[0], Reply::Array(page)])),
                Err(e) => Err(e),
            }
        },
        Reply::Null => Ok(Reply::Null),
        _ => Err(CommandError::UnexpectedReply { expected: Expected::ArrayOrNull }),
    }
}

/// The cells whose existence decides over the reply to the call for a
/// page: those of the scores of the page.
pub open spec fn scan_cells_of(reply: Reply) -> Seq<Option<u64>> {
    match reply {
        Reply::Array(outer) => if outer.len() >= 2 && outer[1] is Array {
            page_cells_of(outer[1]->Array_0)
        } else {
            Seq::empty()
        },
        _ => Seq::empty(),
    }
}

/// Lists the cells that the geospatial indexing library has to be asked
/// about before the reply to the call for a page is handed on.
pub fn h3scan_cells(reply: &StoreValue) -> (cells: Vec<Option<u64>>)
    ensures
        cells@ == scan_cells_of(reply@),
{
    match reply {
        StoreValue::Array(outer) => {
            proof {
                lemma_array_view(*outer);
            }
            if outer.len() >= 2 {
                match &outer[1] {
                    StoreValue::Array(elems) => {
                        proof {
                            lemma_array_view(*elems);
                        }
                        page_cells(elems)
                    },
                    _ => Vec::new(),
                }
            } else {
                Vec::new()
            }
        },
        _ => Vec::new(),
    }
}

/// Hands on the reply of the store to the call for a page, with every
/// score turned into the key of its cell. `accepted` holds for each pair
/// of the page whether the cell of its score exists. One score that cannot
/// be read, or whose cell does not exist, fails the whole page.
pub fn h3scan_reply(reply: &StoreValue, accepted: &Vec<bool>) -> (r: Result<
    StoreValue,
    CommandError,
>)
    ensures
        tells(r, scan_reply_of(reply@, accepted@)),
{
    match reply {
        StoreValue::Array(outer) => {
            proof {
                lemma_array_view(*outer);
            }
            if outer.len() < 1 {
                return Err(CommandError::UnexpectedReply { expected: Expected::SimpleString });
            }
            let cursor: String = match &outer[0] {
                StoreValue::SimpleString(cursor) => cursor.clone(),
                _ => {
                    return Err(
                        CommandError::UnexpectedReply { expected: Expected::SimpleString },
                    );
                },
            };
            if outer.len() < 2 {
                return Err(CommandError::UnexpectedReply { expected: Expected::Array });
            }
            match &outer[1] {
                StoreValue::Array(elems) => {
                    proof {
                        lemma_array_view(*elems);
                    }
                    match rewrite_page(elems, true, accepted) {
                        Ok(page) => {
                            let mut both: Vec<StoreValue> = Vec::new();
                            both.push(StoreValue::SimpleString(cursor));
                            proof {
                                lemma_array_view(page);
                            }
                            both.push(StoreValue::Array(page));
                            proof {
                                lemma_array_view(both);
                                assert(replies_of(both@) =~= seq![
                                    replies_of(outer@)[0],
                                    Reply::Array(replies_of(page@)),
                                ]);
                            }
                            Ok(StoreValue::Array(both))
                        },
                        Err(e) => Err(e),
                    }
                },
                _ => Err(CommandError::UnexpectedReply { expected: Expected::Array }),
            }
        },
        StoreValue::Null => Ok(StoreValue::Null),
        _ => Err(CommandError::UnexpectedReply { expected: Expected::ArrayOrNull }),
    }
}

} // verus!
