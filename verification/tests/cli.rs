use pokedex::{
    collection_query, parse_difficulty_and_number, parse_generation, parse_usize, CollectionQuery,
};

#[test]
fn difficulty_from_one_to_nine() {
    for n in 1usize..=9 {
        assert_eq!(parse_difficulty_and_number(&n.to_string()), Ok(n));
    }
}

#[test]
fn difficulty_out_of_range() {
    let message = "Difficulty and number must be between 1 and 9".to_string();
    assert_eq!(parse_difficulty_and_number("0"), Err(message.clone()));
    assert_eq!(parse_difficulty_and_number("10"), Err(message.clone()));
    assert_eq!(parse_difficulty_and_number("4000000000"), Err(message));
}

#[test]
fn difficulty_with_sign_or_leading_zero() {
    assert_eq!(parse_difficulty_and_number("+7"), Ok(7));
    assert_eq!(parse_difficulty_and_number("007"), Ok(7));
}

#[test]
fn generation_from_one_to_nine() {
    for n in 1usize..=9 {
        assert_eq!(parse_generation(&n.to_string()), Ok(n));
    }
}

#[test]
fn generation_out_of_range() {
    let message = "Generation must be between 1 and 9".to_string();
    assert_eq!(parse_generation("0"), Err(message.clone()));
    assert_eq!(parse_generation("10"), Err(message));
}

#[test]
fn numerals() {
    assert_eq!(parse_usize("0"), Some(0));
    assert_eq!(parse_usize("42"), Some(42));
    assert_eq!(parse_usize("+42"), Some(42));
    assert_eq!(parse_usize("0042"), Some(42));
    assert_eq!(parse_usize(&usize::MAX.to_string()), Some(usize::MAX));
}

#[test]
fn not_numerals() {
    for text in ["", "+", "-1", "-0", "1 ", " 1", "1_0", "0x10", "12a", "++1", "1+", "٣", "1.0"] {
        assert_eq!(parse_usize(text), None, "{:?}", text);
    }
}

#[test]
fn numerals_too_large() {
    assert_eq!(parse_usize(&format!("{}0", usize::MAX)), None);
    assert_eq!(parse_usize("340282366920938463463374607431768211456"), None);
    let one_more = (usize::MAX as u128 + 1).to_string();
    assert_eq!(parse_usize(&one_more), None);
}

#[test]
fn numerals_read_as_the_standard_library_reads_them() {
    let samples = [
        "0", "1", "9", "10", "+0", "+", "", "-", "-3", "007", "18446744073709551615",
        "18446744073709551616", "99999999999999999999", "4294967295", "4294967296", "a", "1a",
        "+1+", " 5", "5 ", "５",
    ];
    for text in samples {
        assert_eq!(parse_usize(text), text.parse::<usize>().ok(), "{:?}", text);
    }
    for n in 0usize..2000 {
        assert_eq!(parse_usize(&n.to_string()), Some(n));
    }
}

#[test]
fn query_for_each_generation() {
    let expected = [
        (1, 151),
        (152, 251),
        (252, 386),
        (387, 493),
        (494, 649),
        (650, 721),
        (722, 809),
        (810, 905),
        (906, 1025),
    ];
    for (i, (start, end)) in expected.iter().enumerate() {
        assert_eq!(
            collection_query(Some(i + 1)),
            CollectionQuery::Between { start: *start, end: *end }
        );
    }
}

#[test]
fn query_without_generation() {
    assert_eq!(collection_query(None), CollectionQuery::Everything);
}
