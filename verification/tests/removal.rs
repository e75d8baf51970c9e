use redis_h3::error::{CommandError, Expected};
use redis_h3::remove::{h3rembyindex_command, RemovalEnd};
use redis_h3::store::{StoreCommand, StoreValue};

const CELL_RES9: u64 = 0x0892_8308_280f_ffff;

fn texts(words: &[&str]) -> Vec<String> {
    words.iter().map(|w| w.to_string()).collect()
}

fn simple(text: &str) -> StoreValue {
    StoreValue::SimpleString(text.to_string())
}

#[test]
fn removal_starts_with_the_references() {
    let removal = h3rembyindex_command(texts(&["H3.REMBYINDEX", "places", "x", "y"])).unwrap();
    assert_eq!(removal.key, "places");
    assert_eq!(removal.references, texts(&["x", "y"]));
    assert_eq!(removal.asked, 0);
    assert!(removal.names.is_empty());
    assert_eq!(removal.reference(), Some(&"x".to_string()));
}

#[test]
fn removal_needs_a_cell() {
    assert_eq!(
        h3rembyindex_command(texts(&["H3.REMBYINDEX", "places"])).unwrap_err(),
        CommandError::Syntax
    );
    assert_eq!(h3rembyindex_command(vec![]).unwrap_err(), CommandError::Syntax);
}

#[test]
fn removal_asks_for_names_only() {
    let removal = h3rembyindex_command(texts(&["H3.REMBYINDEX", "places", "x"])).unwrap();
    let call = removal.query(Some(CELL_RES9)).unwrap();
    assert_eq!(call.command, StoreCommand::ZrangeByScore);
    assert_eq!(call.args, texts(&["places", "707021008273408", "707021008498102"]));
    assert_eq!(removal.query(None).unwrap_err(), CommandError::InvalidIndexString);
}

#[test]
fn removal_gathers_names_and_removes_them() {
    let removal = h3rembyindex_command(texts(&["H3.REMBYINDEX", "places", "x", "y", "z"])).unwrap();
    let removal = removal.absorb(&StoreValue::Array(vec![simple("a"), simple("b")])).unwrap();
    assert_eq!(removal.reference(), Some(&"y".to_string()));
    let removal = removal.absorb(&StoreValue::Null).unwrap();
    assert_eq!(removal.reference(), Some(&"z".to_string()));
    let removal = removal.absorb(&StoreValue::Array(vec![simple("c")])).unwrap();
    assert_eq!(removal.reference(), None);
    assert_eq!(removal.asked, 3);
    assert_eq!(removal.names, texts(&["a", "b", "c"]));
    match removal.finish() {
        RemovalEnd::Remove(call) => {
            assert_eq!(call.command, StoreCommand::Zrem);
            assert_eq!(call.command.name(), "zrem");
            assert_eq!(call.args, texts(&["places", "a", "b", "c"]));
        }
        other => panic!("no call: {:?}", other),
    }
}

#[test]
fn removal_of_an_empty_cell_removes_nothing() {
    let removal = h3rembyindex_command(texts(&["H3.REMBYINDEX", "places", "x"])).unwrap();
    let removal = removal.absorb(&StoreValue::Array(vec![])).unwrap();
    assert!(matches!(removal.finish(), RemovalEnd::Done(StoreValue::Integer(0))));
    let removal = h3rembyindex_command(texts(&["H3.REMBYINDEX", "places", "x"])).unwrap();
    let removal = removal.absorb(&StoreValue::Null).unwrap();
    assert!(matches!(removal.finish(), RemovalEnd::Done(StoreValue::Integer(0))));
}

#[test]
fn removal_fails_on_other_replies() {
    let start = || h3rembyindex_command(texts(&["H3.REMBYINDEX", "places", "x"])).unwrap();
    assert_eq!(
        start().absorb(&StoreValue::Integer(1)).unwrap_err(),
        CommandError::UnexpectedReply { expected: Expected::ArrayOrNull }
    );
    assert_eq!(
        start().absorb(&StoreValue::Array(vec![simple("a"), StoreValue::Integer(1)])).unwrap_err(),
        CommandError::UnexpectedReply { expected: Expected::SimpleString }
    );
    assert_eq!(
        start()
            .absorb(&StoreValue::Array(vec![StoreValue::BulkString("a".to_string())]))
            .unwrap_err(),
        CommandError::UnexpectedReply { expected: Expected::SimpleString }
    );
}
