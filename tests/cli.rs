use rcli::formats::base64_format_of_lowercase;
use rcli::inputs::{check_directory, check_input_file};
use rcli::{
    parse_base64_format, parse_format, value_parser, verify_file, verify_input_file, verify_path,
    Base64Format, CsvOpts, FormatError, OutputFormat, TextSignFormat,
};

#[test]
fn http_test_text_sign_format() {
    assert_eq!(TextSignFormat::Blake3.to_string(), "blake3");
    assert_eq!(TextSignFormat::Ed25519.to_string(), "ed25519");
}

#[test]
fn text_test_text_sign_format() {
    assert_eq!(TextSignFormat::Blake3.to_string(), "blake3");
    assert_eq!(TextSignFormat::Ed25519.to_string(), "ed25519");
}

#[test]
fn test_verify_input_file() {
    assert_eq!(verify_file("-"), Ok("-".into()));
    assert_eq!(verify_file("*"), Err("Input file does not exist."));
    // tests run where tests/ is found, which need not hold Cargo.toml
    assert_eq!(verify_file("tests/cli.rs"), Ok("tests/cli.rs".into()));
    assert_eq!(verify_file("not-exist"), Err("Input file does not exist."));
}

#[test]
fn input_file_checks_on_given_answers() {
    assert_eq!(check_input_file("-", false), Ok("-".to_string()));
    assert_eq!(check_input_file("a.txt", true), Ok("a.txt".to_string()));
    assert_eq!(check_input_file("a.txt", false), Err("Input file does not exist."));
    assert_eq!(verify_input_file("-"), Err("Input file does not exist."));
    assert_eq!(verify_input_file("tests/cli.rs"), Ok("tests/cli.rs".to_string()));
}

#[test]
fn directory_checks() {
    assert_eq!(check_directory("d", true, true), Ok("d".to_string()));
    assert_eq!(check_directory("d", true, false), Err("Path does not exist or is not a directory"));
    assert_eq!(verify_path("tests"), Ok("tests".to_string()));
    assert_eq!(verify_path("Cargo.toml"), Err("Path does not exist or is not a directory"));
    assert_eq!(verify_path("no-such-dir"), Err("Path does not exist or is not a directory"));
}

#[test]
fn base64_format_names_ignore_case() {
    assert_eq!(parse_base64_format("standard"), Ok(Base64Format::Standard));
    assert_eq!(parse_base64_format("UrlSafe"), Ok(Base64Format::UrlSafe));
    assert_eq!(parse_base64_format("STANDARD"), Ok(Base64Format::Standard));
    assert!(matches!(parse_base64_format("url-safe"), Err(FormatError::InvalidBase64Format)));
    assert!(matches!(base64_format_of_lowercase("Standard"), Err(FormatError::InvalidBase64Format)));
    assert_eq!(Base64Format::UrlSafe.as_str(), "urlsafe");
    assert_eq!(Base64Format::Standard.to_string(), "standard");
}

#[test]
fn output_format_names_are_exact() {
    assert_eq!(parse_format("json"), Ok(OutputFormat::Json));
    assert_eq!(parse_format("yaml"), Ok(OutputFormat::Yaml));
    assert_eq!(parse_format("csv"), Ok(OutputFormat::Csv));
    match parse_format("JSON") {
        Err(e) => assert_eq!(e.message(), "Unsupported output format: JSON"),
        Ok(_) => panic!("upper case is not a format name"),
    }
    assert_eq!(OutputFormat::Yaml.to_string(), "yaml");
}

#[test]
fn sign_format_names() {
    assert_eq!(value_parser("blake3"), Ok(TextSignFormat::Blake3));
    assert_eq!(value_parser("ed25519"), Ok(TextSignFormat::Ed25519));
    match value_parser("rsa") {
        Err(e) => assert_eq!(e.message(), "Invalid text sign format: Matching variant not found"),
        Ok(_) => panic!("rsa is not offered"),
    }
}

#[test]
fn csv_output_path_defaults_to_the_format() {
    let mut opts = CsvOpts {
        input: "in.csv".to_string(),
        output: None,
        format: OutputFormat::Yaml,
        delimiter: ',',
        header: true,
    };
    assert_eq!(opts.output_path(), "output.yaml");
    opts.output = Some("x.json".to_string());
    assert_eq!(opts.output_path(), "x.json");
}
