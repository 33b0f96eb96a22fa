use rcli::codec::{decode_signature, decoded_text, encode_signature, trim_text};
use rcli::inputs::check_existing_file;
use rcli::table::{is_record_header, pascal_headers};
use rcli::{
    gen_pass, process_base64_decode, process_base64_encode, trim_whitespace, Base64Error,
    Base64Format, GenPassOpts, PasswordError,
};

#[test]
fn trailing_whitespace_is_cut() {
    assert_eq!(trim_whitespace(b"  key \t\r\n\x0c"), b"  key");
    assert_eq!(trim_whitespace(b" \n"), b"");
    assert_eq!(trim_whitespace(b""), b"");
    assert_eq!(trim_whitespace(b"a\x0bb"), b"a\x0bb");
}

#[test]
fn base64_encoding_of_known_values() {
    assert_eq!(process_base64_encode(b"hello\n", Base64Format::Standard), "aGVsbG8=");
    assert_eq!(process_base64_encode(b"hello", Base64Format::UrlSafe), "aGVsbG8");
    assert_eq!(process_base64_encode(&[0xfb, 0xff], Base64Format::Standard), "+/8=");
    assert_eq!(process_base64_encode(&[0xfb, 0xff], Base64Format::UrlSafe), "-_8");
    assert_eq!(process_base64_encode(b"", Base64Format::Standard), "");
}

#[test]
fn base64_decoding_of_known_values() {
    assert_eq!(process_base64_decode(" aGVsbG8=\n", Base64Format::Standard), Ok("hello".to_string()));
    assert_eq!(process_base64_decode("aGVsbG8", Base64Format::UrlSafe), Ok("hello".to_string()));
    assert_eq!(process_base64_decode("aGVsbG8", Base64Format::Standard), Err(Base64Error::InvalidBase64));
    assert_eq!(process_base64_decode("+/8=", Base64Format::Standard), Err(Base64Error::InvalidUtf8));
    assert_eq!(decoded_text(None), Err(Base64Error::InvalidBase64));
    assert_eq!(decoded_text(Some(vec![0x68, 0x69])), Ok("hi".to_string()));
}

#[test]
fn base64_round_trip() {
    let text = "Ünïcödé text";
    let enc = process_base64_encode(text.as_bytes(), Base64Format::UrlSafe);
    assert_eq!(process_base64_decode(&enc, Base64Format::UrlSafe), Ok(text.to_string()));
}

fn in_class(b: u8, upper: bool, lower: bool, number: bool, symbol: bool) -> bool {
    (upper && b.is_ascii_uppercase() && b != b'O')
        || (lower && b.is_ascii_lowercase() && b != b'l')
        || (number && (b'1'..=b'9').contains(&b))
        || (symbol && b"!@#$%^&*_".contains(&b))
}

#[test]
fn passwords_have_the_length_and_classes_asked_for() {
    for length in [4u8, 16, 64] {
        let p = gen_pass(length, true, true, true, true).unwrap();
        assert_eq!(p.len(), length as usize);
        let b = p.as_bytes();
        assert!(b.iter().all(|&c| in_class(c, true, true, true, true)));
        assert!(b.iter().any(|c| c.is_ascii_uppercase()));
        assert!(b.iter().any(|c| c.is_ascii_lowercase()));
        assert!(b.iter().any(|c| c.is_ascii_digit()));
        assert!(b.iter().any(|c| b"!@#$%^&*_".contains(c)));
    }
    let p = gen_pass(20, false, false, true, false).unwrap();
    assert!(p.bytes().all(|c| (b'1'..=b'9').contains(&c)));
    let p = gen_pass(20, true, false, false, true).unwrap();
    assert!(p.bytes().all(|c| in_class(c, true, false, false, true)));
}

#[test]
fn password_errors() {
    assert_eq!(gen_pass(3, true, true, true, true), Err(PasswordError::TooShort));
    assert_eq!(gen_pass(5, false, false, false, false), Err(PasswordError::NoCharacterClass));
    assert_eq!(gen_pass(0, false, false, false, false), Ok(String::new()));
    assert_eq!(gen_pass(1, false, false, true, false).map(|p| p.len()), Ok(1));
}

#[test]
fn squad_header_is_recognised() {
    let h: Vec<String> = ["Name", "Position", "DOB", "Nationality", "Kit Number"]
        .iter()
        .map(|s| s.to_string())
        .collect();
    assert!(is_record_header(&h));
    let mut other = h.clone();
    other[4] = "Kit".to_string();
    assert!(!is_record_header(&other));
    assert!(!is_record_header(&h[..4].to_vec()));
}

#[test]
fn headers_in_pascal_case() {
    let h = vec!["kit number".to_string(), "date_of_birth".to_string(), "Name".to_string()];
    assert_eq!(pascal_headers(&h), vec!["KitNumber", "DateOfBirth", "Name"]);
}

#[test]
fn generated_passwords_are_scored() {
    let opts = GenPassOpts { length: 64, upper_case: true, lower_case: true, number: true, symbol: true };
    let (p, score) = opts.execute().unwrap();
    assert_eq!(p.len(), 64);
    assert_eq!(score, 4);
    let short = GenPassOpts { length: 2, upper_case: true, lower_case: true, number: true, symbol: false };
    assert_eq!(short.execute().map(|(p, _)| p), Err(PasswordError::TooShort));
}

#[test]
fn signatures_travel_as_url_safe_base64() {
    assert_eq!(encode_signature(&[0xfb, 0xff, 0x00]), "-_8A");
    assert_eq!(decode_signature("-_8A"), Some(vec![0xfb, 0xff, 0x00]));
    assert_eq!(decode_signature("+/8A"), None);
}

#[test]
fn existing_file_check_on_given_answers() {
    assert_eq!(check_existing_file("-", false), Err("Input file does not exist."));
    assert_eq!(check_existing_file("a.csv", true), Ok("a.csv".to_string()));
}

#[test]
fn white_space_is_trimmed_at_both_ends() {
    assert_eq!(trim_text("\u{3000}\t aGVsbG8=\n\u{a0}"), "aGVsbG8=");
    assert_eq!(trim_text(" a b "), "a b");
    assert_eq!(trim_text(" \u{2028} "), "");
    assert_eq!(trim_text("\u{200b}x"), "\u{200b}x");
    assert_eq!(process_base64_decode("\u{3000}aGVsbG8=\u{85}", Base64Format::Standard), Ok("hello".to_string()));
}
