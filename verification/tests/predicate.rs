use pokedex::{generate_hash, is_shiny};

#[test]
fn single_digit_prefix() {
    assert!(is_shiny("777abc", &3, 7));
    assert!(is_shiny("777abc", &2, 7));
    assert!(is_shiny("777abc", &1, 7));
    assert!(!is_shiny("777abc", &4, 7));
    assert!(!is_shiny("777abc", &1, 8));
    assert!(!is_shiny("a777", &1, 7));
}

#[test]
fn zero_is_a_digit_like_any_other() {
    assert!(is_shiny("0b918943", &1, 0));
    assert!(!is_shiny("0b918943", &2, 0));
    assert!(is_shiny("000", &3, 0));
}

#[test]
fn hash_shorter_than_the_run() {
    assert!(!is_shiny("55", &3, 5));
    assert!(!is_shiny("", &1, 5));
    assert!(is_shiny("55", &2, 5));
}

#[test]
fn no_difficulty_is_always_met() {
    assert!(is_shiny("", &0, 5));
    assert!(is_shiny("abc", &0, 5));
}

#[test]
fn number_of_several_digits_repeats_whole() {
    assert!(is_shiny("1212ff", &2, 12));
    assert!(is_shiny("1212ff", &1, 12));
    assert!(!is_shiny("1122ff", &2, 12));
    assert!(!is_shiny("121", &2, 12));
    assert!(is_shiny("100100100", &3, 100));
}

#[test]
fn agrees_with_starts_with() {
    for n in 0u64..300 {
        let hash = generate_hash(n);
        for digit in 0usize..=9 {
            for difficulty in 1usize..=9 {
                let expected = hash.starts_with(&digit.to_string().repeat(difficulty));
                assert_eq!(is_shiny(&hash, &difficulty, digit), expected);
            }
        }
    }
}

#[test]
fn first_counter_whose_hash_starts_with_zero() {
    let found = (0u64..1000).find(|n| is_shiny(&generate_hash(*n), &1, 0));
    assert_eq!(found, Some(39));
    assert!(generate_hash(39).starts_with("0"));
}

#[test]
fn characters_beyond_ascii_count_as_one() {
    assert!(!is_shiny("é5", &1, 5));
    assert!(is_shiny("5é", &1, 5));
}
