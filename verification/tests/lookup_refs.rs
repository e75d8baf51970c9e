use redis_h3::error::IndexError;
use redis_h3::lookup::{index_text_form, str_to_h3, IndexText};

#[test]
fn fifteen_letters_or_digits_are_a_key() {
    assert_eq!(index_text_form("8928308280fffff"), IndexText::Key);
    assert_eq!(index_text_form("8F28308280F18F2"), IndexText::Key);
    assert_eq!(index_text_form("zzzzzzzzzzzzzzz"), IndexText::Key);
    assert_eq!(index_text_form("123456789012345"), IndexText::Key);
    assert_eq!(index_text_form("0x8928308280fffff"), IndexText::Key);
    assert_eq!(index_text_form("0x0000000000000"), IndexText::Key);
}

#[test]
fn other_digits_are_a_number() {
    assert_eq!(
        index_text_form("617700169958293503"),
        IndexText::Number { value: 617700169958293503 }
    );
    assert_eq!(index_text_form("0"), IndexText::Number { value: 0 });
    assert_eq!(index_text_form("+15"), IndexText::Number { value: 15 });
    assert_eq!(index_text_form("12345678901234"), IndexText::Number { value: 12345678901234 });
    assert_eq!(
        index_text_form("1234567890123456"),
        IndexText::Number { value: 1234567890123456 }
    );
}

#[test]
fn anything_else_is_unreadable() {
    assert_eq!(index_text_form(""), IndexText::Unreadable);
    assert_eq!(index_text_form("8928308280ffff"), IndexText::Unreadable);
    assert_eq!(index_text_form("8928308280ffffff"), IndexText::Unreadable);
    assert_eq!(index_text_form("0X8928308280fffff"), IndexText::Unreadable);
    assert_eq!(index_text_form("1x8928308280fffff"), IndexText::Unreadable);
    assert_eq!(index_text_form("8928308280ffff\u{e9}"), IndexText::Unreadable);
    assert_eq!(index_text_form("8928308280fffff\n"), IndexText::Unreadable);
    assert_eq!(index_text_form(" 8928308280fffff"), IndexText::Unreadable);
    assert_eq!(index_text_form("8928308280ffff-"), IndexText::Unreadable);
    assert_eq!(index_text_form("x8928308280fffff"), IndexText::Unreadable);
    assert_eq!(index_text_form("99999999999999999999"), IndexText::Unreadable);
    assert_eq!(index_text_form("-5"), IndexText::Unreadable);
}

#[test]
fn a_key_is_the_cell_that_was_read_from_it() {
    let text = String::from("8928308280fffff");
    assert_eq!(str_to_h3(&text, Some(0x0892_8308_280f_ffff)), Ok(0x0892_8308_280f_ffff));
    assert_eq!(str_to_h3(&text, None), Err(IndexError::InvalidString));
}

#[test]
fn a_number_is_the_cell_where_it_was_accepted() {
    let text = String::from("617700169958293503");
    assert_eq!(str_to_h3(&text, Some(617700169958293503)), Ok(617700169958293503));
    assert_eq!(
        str_to_h3(&text, None),
        Err(IndexError::InvalidIndex { value: 617700169958293503 })
    );
}

#[test]
fn an_unreadable_text_is_no_cell() {
    let text = String::from("not a cell");
    assert_eq!(str_to_h3(&text, None), Err(IndexError::FailedConversion));
    assert_eq!(str_to_h3(&text, Some(1)), Err(IndexError::FailedConversion));
    assert_eq!(str_to_h3(&String::new(), None), Err(IndexError::FailedConversion));
}

/// Fifteen ASCII letters or digits, with or without `0x` in front.
fn looks_like_a_key(text: &str) -> bool {
    let chars: Vec<char> = text.chars().collect();
    let body = |cs: &[char]| cs.len() == 15 && cs.iter().all(|c| c.is_ascii_alphanumeric());
    body(&chars) || (chars.len() == 17 && chars[0] == '0' && chars[1] == 'x' && body(&chars[2..]))
}

#[test]
fn keys_are_told_from_other_texts_on_many_texts() {
    let alphabet: Vec<char> = "0x19afAFgzGZ _-+\n\u{e9}\u{131}".chars().collect();
    let mut seed: u64 = 0x2545_f491_4f6c_dd1d;
    let mut next = || {
        seed ^= seed << 13;
        seed ^= seed >> 7;
        seed ^= seed << 17;
        seed
    };
    let mut keys = 0;
    for round in 0..20000 {
        let len = 13 + (next() % 6) as usize;
        let plain = round % 2 == 0;
        let mut text = String::new();
        if next() % 3 == 0 {
            text.push_str("0x");
        }
        while text.chars().count() < len {
            let pick = if plain { next() % 12 } else { next() % alphabet.len() as u64 };
            text.push(alphabet[pick as usize]);
        }
        let is_key = index_text_form(&text) == IndexText::Key;
        assert_eq!(is_key, looks_like_a_key(&text), "{:?}", text);
        if is_key {
            keys += 1;
        }
    }
    assert!(keys > 1000);
}
