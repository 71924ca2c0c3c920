use pokedex::decimal::{push_decimal, push_decimal_bytes, push_signed_decimal};

#[test]
fn decimal_text_of_unsigned() {
    for n in [0u64, 1, 9, 10, 11, 99, 100, 101, 12345, u32::MAX as u64, u64::MAX] {
        let mut text = String::new();
        push_decimal(&mut text, n);
        assert_eq!(text, n.to_string());
    }
}

#[test]
fn decimal_text_is_appended() {
    let mut text = String::from("n = ");
    push_decimal(&mut text, 2024);
    assert_eq!(text, "n = 2024");
}

#[test]
fn decimal_bytes_of_unsigned() {
    for n in [0u64, 7, 10, 42, 1000, u64::MAX] {
        let mut bytes = vec![b'#'];
        push_decimal_bytes(&mut bytes, n);
        assert_eq!(bytes, format!("#{}", n).into_bytes());
    }
}

#[test]
fn decimal_text_of_signed() {
    for n in [0i64, 1, -1, 9, -9, 10, -10, 255, -255, i64::MAX, i64::MIN, i64::MIN + 1] {
        let mut text = String::new();
        push_signed_decimal(&mut text, n);
        assert_eq!(text, n.to_string());
    }
}

#[test]
fn decimal_text_of_many() {
    for n in 0u64..3000 {
        let mut text = String::new();
        push_decimal(&mut text, n);
        assert_eq!(text, n.to_string());
    }
}
