use iex::coercion::Numeric;
use iex::{from_bool_str, from_str, MyError};

const TEXTS: [&str; 40] = [
    "0", "+0", "-0", "1", "+1", "-1", "42", "007", "-007", "+", "-", "+-1", "-+1", "++1", "--1",
    "1+", "1-", " 1", "1 ", "1.0", "1e3", "0x10", "abc", "١٢", "127", "128", "-128", "-129", "255",
    "256", "32767", "-32768", "65535", "2147483647", "-2147483648", "4294967295",
    "9223372036854775807", "-9223372036854775808", "18446744073709551615", "18446744073709551616",
];

fn decode_error(field: &str, raw: &str) -> MyError {
    MyError::Decode { field: field.to_string(), raw: raw.to_string() }
}

fn agrees_with_the_standard_parser<T>()
where
    T: Numeric + std::str::FromStr + PartialEq + std::fmt::Debug,
{
    for text in TEXTS {
        let expected: Result<T, MyError> = match text.parse::<T>() {
            Ok(n) => Ok(n),
            Err(_) => Err(decode_error("field", text)),
        };
        assert_eq!(from_str::<T>("field", text), expected, "{:?}", text);
        assert_eq!(T::parse(text), text.parse::<T>().ok(), "{:?}", text);
    }
    assert_eq!(from_str::<T>("field", "").ok(), "0".parse::<T>().ok());
    assert_eq!(T::parse(""), None);
}

#[test]
fn empty_text_is_zero() {
    assert_eq!(from_str::<u64>("iexId", ""), Ok(0));
    assert_eq!(from_str::<u8>("iexId", ""), Ok(0));
    assert_eq!(from_str::<u16>("iexId", ""), Ok(0));
    assert_eq!(from_str::<u32>("iexId", ""), Ok(0));
    assert_eq!(from_str::<usize>("iexId", ""), Ok(0));
    assert_eq!(from_str::<i8>("iexId", ""), Ok(0));
    assert_eq!(from_str::<i16>("iexId", ""), Ok(0));
    assert_eq!(from_str::<i32>("iexId", ""), Ok(0));
    assert_eq!(from_str::<i64>("iexId", ""), Ok(0));
    assert_eq!(from_str::<isize>("iexId", ""), Ok(0));
}

#[test]
fn digits_are_read() {
    assert_eq!(from_str::<u64>("iexId", "42"), Ok(42));
    assert_eq!(from_str::<u64>("iexId", "+42"), Ok(42));
    assert_eq!(from_str::<u64>("iexId", "18446744073709551615"), Ok(u64::MAX));
    assert_eq!(from_str::<i64>("iexId", "-42"), Ok(-42));
    assert_eq!(from_str::<i64>("iexId", "-9223372036854775808"), Ok(i64::MIN));
    assert_eq!(from_str::<i8>("iexId", "-128"), Ok(i8::MIN));
    assert_eq!(from_str::<u8>("iexId", "255"), Ok(u8::MAX));
}

#[test]
fn other_text_names_the_field() {
    assert_eq!(from_str::<u64>("iexId", "abc"), Err(decode_error("iexId", "abc")));
    assert_eq!(from_str::<i32>("lotSize", "abc"), Err(decode_error("lotSize", "abc")));
    assert!(from_str::<u64>("iexId", "18446744073709551616").is_err());
    assert!(from_str::<u64>("iexId", "-1").is_err());
    assert!(from_str::<u64>("iexId", "+").is_err());
    assert!(from_str::<u64>("iexId", " 1").is_err());
    assert!(from_str::<u8>("iexId", "256").is_err());
    assert!(from_str::<i8>("iexId", "128").is_err());
    assert!(from_str::<i64>("iexId", "9223372036854775808").is_err());
    assert!(from_str::<i64>("iexId", "-9223372036854775809").is_err());
}

#[test]
fn every_integer_type_reads_as_its_parser_does() {
    agrees_with_the_standard_parser::<u8>();
    agrees_with_the_standard_parser::<u16>();
    agrees_with_the_standard_parser::<u32>();
    agrees_with_the_standard_parser::<u64>();
    agrees_with_the_standard_parser::<usize>();
    agrees_with_the_standard_parser::<i8>();
    agrees_with_the_standard_parser::<i16>();
    agrees_with_the_standard_parser::<i32>();
    agrees_with_the_standard_parser::<i64>();
    agrees_with_the_standard_parser::<isize>();
}

#[test]
fn flag_letters() {
    assert!(!from_bool_str("N"));
    assert!(!from_bool_str("F"));
    assert!(!from_bool_str(""));
    assert!(from_bool_str("Y"));
    assert!(from_bool_str("T"));
    assert!(from_bool_str("anything-else"));
    assert!(from_bool_str("n"));
    assert!(from_bool_str("f"));
    assert!(from_bool_str("NN"));
    assert!(from_bool_str(" "));
    assert!(from_bool_str("false"));
}
