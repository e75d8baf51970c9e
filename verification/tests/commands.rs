use redis_h3::add::{
    h3add_command, h3add_points, h3addbyindex_command, h3addbyindex_references,
};
use redis_h3::command::{
    h3radius_command, h3radiusbyindex_command, h3search_command, h3searchstore_command,
    h3status_command,
};
use redis_h3::error::{CommandError, Expected};
use redis_h3::position::{
    distance_cells, h3dist_command, h3dist_plan, h3index_command, h3pos_command,
};
use redis_h3::store::{StoreCommand, StoreValue};
use redis_h3::unit::{is_word, unit_of_upper, unit_str_to_conversion, uppers_of, Unit};

const LEAF_A: u64 = 0x08f2_8308_280c_0000;
const LEAF_B: u64 = 0x08f2_8308_280f_18f2;

fn texts(words: &[&str]) -> Vec<String> {
    words.iter().map(|w| w.to_string()).collect()
}

fn run_status() -> Result<StoreValue, CommandError> {
    h3status_command(vec![])
}

#[test]
fn test_status() {
    let result = run_status();

    match result {
        Ok(StoreValue::SimpleString(s)) => {
            assert!(s.as_str() == "Ok");
        }
        _ => assert!(false, "Bad result: {:?}", result),
    }
}

#[test]
fn commands_that_are_not_implemented() {
    assert_eq!(h3radius_command(vec![]).unwrap_err(), CommandError::NotImplemented);
    assert_eq!(h3radiusbyindex_command(texts(&["a"])).unwrap_err(), CommandError::NotImplemented);
    assert_eq!(h3search_command(vec![]).unwrap_err(), CommandError::NotImplemented);
    assert_eq!(h3searchstore_command(vec![]).unwrap_err(), CommandError::NotImplemented);
}

#[test]
fn add_lists_the_points() {
    let args = texts(&["H3.ADD", "places", "-122.42", "37.77", "sf", "2.35", "48.85", "paris"]);
    assert_eq!(
        h3add_points(&args),
        vec![
            ("-122.42".to_string(), "37.77".to_string()),
            ("2.35".to_string(), "48.85".to_string())
        ]
    );
    assert!(h3add_points(&texts(&["H3.ADD", "places", "1", "2"])).is_empty());
    assert!(h3add_points(&texts(&["H3.ADD", "places", "1", "2", "a", "3"])).is_empty());
}

#[test]
fn add_builds_the_insertion() {
    let args = texts(&["H3.ADD", "places", "-122.42", "37.77", "sf", "2.35", "48.85", "paris"]);
    let call = h3add_command(args, &vec![Some(LEAF_A), Some(LEAF_B)]).unwrap();
    assert_eq!(call.command, StoreCommand::Zadd);
    assert_eq!(call.command.name(), "zadd");
    assert_eq!(
        call.args,
        texts(&["places", "707021008273408", "sf", "707021008476402", "paris"])
    );
}

#[test]
fn add_with_wrong_number_of_arguments() {
    for words in [
        &["H3.ADD"][..],
        &["H3.ADD", "places", "1", "2"][..],
        &["H3.ADD", "places", "1", "2", "a", "3"][..],
        &["H3.ADD", "places", "1", "2", "a", "3", "4"][..],
    ] {
        assert_eq!(
            h3add_command(texts(words), &vec![Some(LEAF_A), Some(LEAF_B)]).unwrap_err(),
            CommandError::Syntax
        );
    }
}

#[test]
fn add_with_a_point_that_has_no_cell() {
    let args = texts(&["H3.ADD", "places", "west", "37.77", "sf", "2.35", "48.85", "paris"]);
    assert_eq!(
        h3add_command(args.clone(), &vec![None, Some(LEAF_B)]).unwrap_err(),
        CommandError::InvalidCoordinate
    );
    assert_eq!(
        h3add_command(args.clone(), &vec![Some(LEAF_A)]).unwrap_err(),
        CommandError::InvalidCoordinate
    );
    assert_eq!(h3add_command(args, &vec![]).unwrap_err(), CommandError::InvalidCoordinate);
}

#[test]
fn addbyindex_lists_the_references() {
    let args =
        texts(&["H3.ADDBYINDEX", "places", "8f28308280c0000", "a", "644721767722457330", "b"]);
    assert_eq!(
        h3addbyindex_references(&args),
        texts(&["8f28308280c0000", "644721767722457330"])
    );
    assert!(h3addbyindex_references(&texts(&["H3.ADDBYINDEX", "places", "x"])).is_empty());
}

#[test]
fn addbyindex_builds_the_insertion() {
    let args =
        texts(&["H3.ADDBYINDEX", "places", "8f28308280c0000", "a", "644721767722457330", "b"]);
    let call = h3addbyindex_command(args, &vec![Some(LEAF_A), Some(LEAF_B)]).unwrap();
    assert_eq!(call.command, StoreCommand::Zadd);
    assert_eq!(call.args, texts(&["places", "707021008273408", "a", "707021008476402", "b"]));
}

#[test]
fn addbyindex_with_wrong_number_of_arguments() {
    for words in [
        &["H3.ADDBYINDEX", "places", "x"][..],
        &["H3.ADDBYINDEX", "places", "x", "a", "y"][..],
        &[][..],
    ] {
        assert_eq!(
            h3addbyindex_command(texts(words), &vec![Some(LEAF_A), Some(LEAF_B)]).unwrap_err(),
            CommandError::Syntax
        );
    }
}

#[test]
fn addbyindex_with_a_reference_of_no_cell() {
    let args = texts(&["H3.ADDBYINDEX", "places", "nowhere", "a"]);
    assert_eq!(
        h3addbyindex_command(args.clone(), &vec![None]).unwrap_err(),
        CommandError::InvalidIndexString
    );
    assert_eq!(
        h3addbyindex_command(args, &vec![]).unwrap_err(),
        CommandError::InvalidIndexString
    );
}

#[test]
fn addbyindex_with_a_cell_that_is_no_leaf() {
    let args = texts(&["H3.ADDBYINDEX", "places", "8928308280fffff", "a"]);
    assert_eq!(
        h3addbyindex_command(args, &vec![Some(0x0892_8308_280f_ffff)]).unwrap_err(),
        CommandError::InvalidResolution
    );
}

#[test]
fn addbyindex_fails_with_the_first_member_that_fails() {
    let args = texts(&["H3.ADDBYINDEX", "places", "x", "a", "y", "b"]);
    assert_eq!(
        h3addbyindex_command(args.clone(), &vec![Some(0x0892_8308_280f_ffff), None]).unwrap_err(),
        CommandError::InvalidResolution
    );
    assert_eq!(
        h3addbyindex_command(args, &vec![None, Some(0x0892_8308_280f_ffff)]).unwrap_err(),
        CommandError::InvalidIndexString
    );
}

#[test]
fn index_asks_for_the_score_of_each_member() {
    let calls = h3index_command(texts(&["H3.INDEX", "places", "sf", "paris"])).unwrap();
    assert_eq!(calls.len(), 2);
    assert_eq!(calls[0].command, StoreCommand::Zscore);
    assert_eq!(calls[0].command.name(), "zscore");
    assert_eq!(calls[0].args, texts(&["places", "sf"]));
    assert_eq!(calls[1].args, texts(&["places", "paris"]));
    assert!(h3index_command(texts(&["H3.INDEX", "places"])).unwrap().is_empty());
    assert_eq!(h3index_command(texts(&["H3.INDEX"])).unwrap_err(), CommandError::WrongArity);
    assert_eq!(h3index_command(vec![]).unwrap_err(), CommandError::WrongArity);
}

#[test]
fn pos_asks_for_the_score_of_each_member() {
    let calls = h3pos_command(texts(&["H3.POS", "places", "sf"])).unwrap();
    assert_eq!(calls.len(), 1);
    assert_eq!(calls[0].command, StoreCommand::Zscore);
    assert_eq!(calls[0].args, texts(&["places", "sf"]));
    assert_eq!(h3pos_command(texts(&["H3.POS"])).unwrap_err(), CommandError::WrongArity);
}

#[test]
fn units_by_name() {
    assert_eq!(unit_of_upper("M"), Ok(Unit::Meters));
    assert_eq!(unit_of_upper("KM"), Ok(Unit::Kilometers));
    assert_eq!(unit_of_upper("FT"), Ok(Unit::Feet));
    assert_eq!(unit_of_upper("MI"), Ok(Unit::Miles));
    assert_eq!(unit_of_upper("km"), Err(CommandError::UnsupportedUnit));
    assert_eq!(unit_of_upper(""), Err(CommandError::UnsupportedUnit));
    assert_eq!(unit_of_upper("YD"), Err(CommandError::UnsupportedUnit));
}

#[test]
fn units_in_any_case() {
    assert_eq!(unit_str_to_conversion(&"m".to_string()), Ok(Unit::Meters));
    assert_eq!(unit_str_to_conversion(&"Km".to_string()), Ok(Unit::Kilometers));
    assert_eq!(unit_str_to_conversion(&"ft".to_string()), Ok(Unit::Feet));
    assert_eq!(unit_str_to_conversion(&"mI".to_string()), Ok(Unit::Miles));
    assert_eq!(unit_str_to_conversion(&"MI".to_string()), Ok(Unit::Miles));
    assert_eq!(unit_str_to_conversion(&"m\u{131}".to_string()), Ok(Unit::Miles));
    assert_eq!(
        unit_str_to_conversion(&"yards".to_string()),
        Err(CommandError::UnsupportedUnit)
    );
    assert_eq!(unit_str_to_conversion(&String::new()), Err(CommandError::UnsupportedUnit));
}

#[test]
fn length_of_each_unit() {
    assert_eq!(Unit::Meters.micrometers(), 1_000_000);
    assert_eq!(Unit::Kilometers.micrometers(), 1_000_000_000);
    assert_eq!(Unit::Feet.micrometers(), 304_800);
    assert_eq!(Unit::Miles.micrometers(), 1_609_340_000);
    assert_eq!(Unit::Feet.micrometers() as f64 / 1e6, 0.3048);
    assert_eq!(Unit::Miles.micrometers() as f64 / 1e6, 1609.34);
    assert_eq!(Unit::Kilometers.micrometers() as f64 / 1e6, 1000.0);
    assert_eq!(Unit::Meters.micrometers() as f64 / 1e6, 1.0);
}

#[test]
fn upper_case_of_every_argument() {
    assert_eq!(
        uppers_of(&texts(&["h3.cell", "Key", "limit", "stra\u{df}e", ""])),
        texts(&["H3.CELL", "KEY", "LIMIT", "STRASSE", ""])
    );
    let uppers = texts(&["A", "LIMIT"]);
    assert!(is_word(&uppers, 1, "LIMIT"));
    assert!(!is_word(&uppers, 0, "LIMIT"));
    assert!(!is_word(&uppers, 2, "LIMIT"));
    assert!(!is_word(&uppers, 2, ""));
}

#[test]
fn dist_reads_members_and_unit() {
    let query = h3dist_command(texts(&["H3.DIST", "places", "sf", "paris"])).unwrap();
    assert_eq!(query.unit, Unit::Meters);
    assert_eq!(query.first.command, StoreCommand::Zscore);
    assert_eq!(query.first.args, texts(&["places", "sf"]));
    assert_eq!(query.second.command, StoreCommand::Zscore);
    assert_eq!(query.second.args, texts(&["places", "paris"]));
    let query = h3dist_command(texts(&["H3.DIST", "places", "sf", "paris", "km"])).unwrap();
    assert_eq!(query.unit, Unit::Kilometers);
    let query =
        h3dist_command(texts(&["H3.DIST", "places", "sf", "paris", "Mi", "more"])).unwrap();
    assert_eq!(query.unit, Unit::Miles);
}

#[test]
fn dist_failures() {
    assert_eq!(
        h3dist_command(texts(&["H3.DIST", "places", "sf"])).unwrap_err(),
        CommandError::Syntax
    );
    assert_eq!(
        h3dist_command(texts(&["H3.DIST", "places", "sf", "paris", "yards"])).unwrap_err(),
        CommandError::UnsupportedUnit
    );
    let args = texts(&["H3.DIST", "places", "sf", "paris", "km"]);
    assert_eq!(
        h3dist_plan(&args, &texts(&["", "", "", ""])).unwrap_err(),
        CommandError::UnsupportedUnit
    );
    assert_eq!(h3dist_plan(&args, &texts(&["", "", "", "", "FT"])).unwrap().unit, Unit::Feet);
}

#[test]
fn distance_needs_both_cells() {
    assert_eq!(distance_cells(&vec![Some(LEAF_A), Some(LEAF_B)]), Ok((LEAF_A, LEAF_B)));
    assert_eq!(distance_cells(&vec![Some(LEAF_A), Some(LEAF_B), None]), Ok((LEAF_A, LEAF_B)));
    assert_eq!(distance_cells(&vec![Some(LEAF_A), Some(LEAF_A)]), Ok((LEAF_A, LEAF_A)));
    assert_eq!(distance_cells(&vec![None, Some(LEAF_B)]), Err(CommandError::NoDistance));
    assert_eq!(distance_cells(&vec![Some(LEAF_A), None]), Err(CommandError::NoDistance));
    assert_eq!(distance_cells(&vec![Some(LEAF_A)]), Err(CommandError::NoDistance));
    assert_eq!(distance_cells(&vec![]), Err(CommandError::NoDistance));
}

#[test]
fn every_failure_has_its_message() {
    assert_eq!(CommandError::Syntax.message(), "syntax error");
    assert_eq!(CommandError::WrongArity.message(), "wrong number of arguments");
    assert_eq!(CommandError::InvalidCoordinate.message(), "Invalid lng or lat value");
    assert_eq!(CommandError::InvalidIndexString.message(), "Invalid h3idx value");
    assert_eq!(
        CommandError::InvalidResolution.message(),
        "Invalid h3idx resolution (must be 15)"
    );
    assert_eq!(CommandError::DecodeFailure.message(), "Invalid h3idx value");
    assert_eq!(
        CommandError::UnsupportedUnit.message(),
        "unsupported unit provided. please use m, km, ft, mi"
    );
    assert_eq!(CommandError::InvalidCursor.message(), "invalid cursor");
    assert_eq!(CommandError::NotAnInteger { position: 3 }.message(), "Couldn't parse as integer");
    assert_eq!(CommandError::NoDistance.message(), "error trying to get distance");
    assert_eq!(CommandError::NotImplemented.message(), "Command not implemented");
    let unexpected = |expected| CommandError::UnexpectedReply { expected }.message();
    assert_eq!(unexpected(Expected::SimpleString), "Unexpected type (not SimpleString)");
    assert_eq!(unexpected(Expected::Array), "Unexpected type (not Array)");
    assert_eq!(unexpected(Expected::ArrayOrNull), "Unexpected type (not Array or Null)");
    assert_eq!(unexpected(Expected::ScoreOrNull), "Unexpected type (SimpleString or Null)");
}
