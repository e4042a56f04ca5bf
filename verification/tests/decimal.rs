use hearthstone::decimal::parse_i32;

#[test]
fn parse_plain_numbers() {
    assert_eq!(parse_i32("3"), Some(3));
    assert_eq!(parse_i32("0"), Some(0));
    assert_eq!(parse_i32("10"), Some(10));
    assert_eq!(parse_i32("1234567"), Some(1234567));
}

#[test]
fn parse_signed_numbers() {
    assert_eq!(parse_i32("+5"), Some(5));
    assert_eq!(parse_i32("-5"), Some(-5));
    assert_eq!(parse_i32("-0"), Some(0));
    assert_eq!(parse_i32("+0"), Some(0));
}

#[test]
fn parse_leading_zeros() {
    assert_eq!(parse_i32("007"), Some(7));
    assert_eq!(parse_i32("-007"), Some(-7));
    assert_eq!(parse_i32("000000000000000000000000000001"), Some(1));
    assert_eq!(parse_i32("00000000002147483647"), Some(2147483647));
}

#[test]
fn parse_limits_of_the_range() {
    assert_eq!(parse_i32("2147483647"), Some(i32::MAX));
    assert_eq!(parse_i32("+2147483647"), Some(i32::MAX));
    assert_eq!(parse_i32("-2147483648"), Some(i32::MIN));
    assert_eq!(parse_i32("2147483648"), None);
    assert_eq!(parse_i32("+2147483648"), None);
    assert_eq!(parse_i32("-2147483649"), None);
    assert_eq!(parse_i32("21474836470"), None);
    assert_eq!(parse_i32("99999999999999999999999999"), None);
    assert_eq!(parse_i32("-99999999999999999999999999"), None);
}

#[test]
fn parse_rejects_what_is_no_number() {
    assert_eq!(parse_i32(""), None);
    assert_eq!(parse_i32("+"), None);
    assert_eq!(parse_i32("-"), None);
    assert_eq!(parse_i32("abc"), None);
    assert_eq!(parse_i32(" 5"), None);
    assert_eq!(parse_i32("5 "), None);
    assert_eq!(parse_i32("1_000"), None);
    assert_eq!(parse_i32("3.0"), None);
    assert_eq!(parse_i32("0x10"), None);
    assert_eq!(parse_i32("--5"), None);
    assert_eq!(parse_i32("+-5"), None);
    assert_eq!(parse_i32("5-"), None);
    assert_eq!(parse_i32("12a"), None);
    assert_eq!(parse_i32("a12"), None);
    assert_eq!(parse_i32("\u{0663}"), None);
    assert_eq!(parse_i32("1\u{00e9}"), None);
    assert_eq!(parse_i32("\u{ff11}"), None);
}

#[test]
fn parse_agrees_with_the_standard_library() {
    let samples = [
        "", "+", "-", "0", "-0", "+0", "1", "-1", "+1", "42", "-42", "007", "2147483647",
        "2147483648", "-2147483648", "-2147483649", "4294967296", "9223372036854775807",
        "99999999999999999999", "1e3", "1.5", " 1", "1 ", "\t1", "1\n", "+ 1", "- 1", "++1",
        "0-1", "1,000", "١٢٣", "１２３", "é", "12é", "NaN", "inf", "true", "0b1", "0o7", "٣",
        "/", ":", "0/", "9:", "-/", "+:", "00", "-00", "+00", "000000000000000000000",
        "0000000000000000000002147483648", "-0000000000000000000002147483648",
    ];
    for s in samples.iter() {
        assert_eq!(parse_i32(s), s.parse::<i32>().ok(), "input {:?}", s);
    }
    for n in -1100..1100 {
        let plain = format!("{}", n);
        assert_eq!(parse_i32(&plain), Some(n));
        let padded = format!("{:+05}", n);
        assert_eq!(parse_i32(&padded), padded.parse::<i32>().ok(), "input {:?}", padded);
    }
    let mut n: i64 = -3_000_000_000;
    while n <= 3_000_000_000 {
        let text = format!("{}", n);
        assert_eq!(parse_i32(&text), text.parse::<i32>().ok(), "input {:?}", text);
        n += 7_777_777;
    }
}

#[test]
fn parse_every_single_character() {
    for code in 0u32..0x300 {
        if let Some(c) = char::from_u32(code) {
            let one = format!("{}", c);
            assert_eq!(parse_i32(&one), one.parse::<i32>().ok(), "input {:?}", one);
            let signed = format!("-{}", c);
            assert_eq!(parse_i32(&signed), signed.parse::<i32>().ok(), "input {:?}", signed);
            let after = format!("1{}", c);
            assert_eq!(parse_i32(&after), after.parse::<i32>().ok(), "input {:?}", after);
        }
    }
}
