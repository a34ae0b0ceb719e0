use rust_toolchain_file::legacy::{LegacyChannel, Parser, ParserError};
use rust_toolchain_file::LegacyToolchainFile;
use std::path::Path;

const SAMPLE_PATH: &str = "/test";

fn check_ok_spec(content: &str) {
    let parser = Parser::new(content);

    let parsed = parser.parse();
    assert!(parsed.is_ok());

    let legacy_toolchain_file = parsed.unwrap();
    let spec = legacy_toolchain_file.spec();
    assert!(spec.is_some());

    let spec = spec.unwrap();

    assert_eq!(spec, content.trim());
}

#[test]
fn parse_ok_spec_docs_example() {
    check_ok_spec("nightly-2021-01-21");
}

#[test]
fn parse_ok_spec_nightly() {
    check_ok_spec("nightly");
}

#[test]
fn parse_ok_spec_stable_version() {
    check_ok_spec("1.37.0");
}

#[test]
fn parse_ok_spec_untrimmed_pre() {
    check_ok_spec(" nightly-2021-01-21");
}

#[test]
fn parse_ok_spec_untrimmed_post() {
    check_ok_spec("nightly-2021-01-21 ");
}

#[test]
fn parse_ok_path() {
    let content = SAMPLE_PATH;
    let parser = Parser::new(content);

    let parsed = parser.parse();
    assert!(parsed.is_ok());

    let legacy_toolchain_file = parsed.unwrap();
    let path = legacy_toolchain_file.path();
    assert!(path.is_some());

    let spec = path.unwrap();

    assert_eq!(Path::new(spec), Path::new(content));
}

#[test]
fn parse_ok_ascii() {
    let content = "hello";

    // Assert that a lenient parser would pass
    let lenient = Parser::new(content);

    let lenient_result = lenient.parse();
    assert!(lenient_result.is_ok());

    // Assert that the strict parser passes too
    let strict = Parser::strict(content);
    let strict_result = strict.parse();

    assert!(strict_result.is_ok());
}

fn check_err_strictness(content: &str) {
    let lenient = Parser::new(content);

    let lenient_result = lenient.parse();
    assert!(lenient_result.is_ok());

    let strict = Parser::strict(content);
    let strict_result = strict.parse();

    assert!(strict_result.is_err());
    assert_eq!(
        strict_result.unwrap_err(),
        ParserError::InvalidEncodingStrict
    )
}

#[test]
fn parse_err_strictness_heart_emoji() {
    check_err_strictness("\u{2764}\u{fe0f}");
}

#[test]
fn parse_err_strictness_utf8_bom() {
    check_err_strictness("a\u{FEFF}");
}

#[test]
fn parse_err_strictness_definitely_not_ascii() {
    check_err_strictness(&char::MAX.to_string());
}

#[test]
fn parse_err_empty_lenient() {
    let result = Parser::new("").parse();
    assert!(result.is_err());
    assert_eq!(result.unwrap_err(), ParserError::IsEmpty);
}

#[test]
fn parse_err_empty_strict() {
    let result = Parser::strict("").parse();
    assert!(result.is_err());
    assert_eq!(result.unwrap_err(), ParserError::IsEmpty);
}

#[test]
fn parse_err_blank_lenient_and_strict() {
    assert_eq!(Parser::new(" \t\r\n  ").parse(), Err(ParserError::IsEmpty));
    assert_eq!(Parser::strict(" \t\r\n  ").parse(), Err(ParserError::IsEmpty));
    // an ideographic space is white space too, but not US-ASCII
    assert_eq!(Parser::new("\u{3000}").parse(), Err(ParserError::IsEmpty));
    assert_eq!(
        Parser::strict("\u{3000}").parse(),
        Err(ParserError::InvalidEncodingStrict)
    );
}

#[test]
fn parse_err_line_count_lenient() {
    let result = Parser::new("a\nb").parse();
    assert!(result.is_err());
    assert_eq!(result.unwrap_err(), ParserError::TooManyLines(2));
}

#[test]
fn parse_err_line_count_strict() {
    let result = Parser::strict("a\nb").parse();
    assert!(result.is_err());
    assert_eq!(result.unwrap_err(), ParserError::TooManyLines(2));
}

#[test]
fn parse_line_terminators() {
    // a trailing terminator is trimmed away
    assert_eq!(
        Parser::new("stable\r\n").parse().unwrap().spec(),
        Some("stable")
    );
    assert_eq!(
        Parser::new("a\r\nb\n\nc").parse(),
        Err(ParserError::TooManyLines(4))
    );
    // a lone carriage return ends no line
    assert_eq!(Parser::new("a\rb").parse().unwrap().spec(), Some("a\rb"));
}

#[test]
fn get_channel_paths_and_specs() {
    for strict in [false, true] {
        let parser = |c| if strict { Parser::strict(c) } else { Parser::new(c) };
        let result = parser(SAMPLE_PATH).parse();
        assert!(result.is_ok());
        assert_eq!(
            result.unwrap().channel(),
            &LegacyChannel::Path(SAMPLE_PATH.to_string())
        );

        let result = parser("channel").parse();
        assert!(result.is_ok());
        assert_eq!(
            result.unwrap().channel(),
            &LegacyChannel::Spec("channel".to_string())
        );
    }
}

#[test]
fn get_path() {
    for strict in [false, true] {
        let parser = |c| if strict { Parser::strict(c) } else { Parser::new(c) };
        let result = parser(SAMPLE_PATH).parse();
        assert!(result.is_ok());
        let legacy_toolchain_file = result.unwrap();
        assert_eq!(
            legacy_toolchain_file.path().map(Path::new),
            Some(Path::new(SAMPLE_PATH))
        );
        assert_eq!(legacy_toolchain_file.spec(), None);
    }
}

#[test]
fn get_spec() {
    for strict in [false, true] {
        let parser = |c| if strict { Parser::strict(c) } else { Parser::new(c) };
        let result = parser("channel").parse();
        assert!(result.is_ok());
        let legacy_toolchain_file = result.unwrap();
        assert_eq!(legacy_toolchain_file.spec(), Some("channel"));
        assert_eq!(legacy_toolchain_file.path(), None);
    }
}

#[test]
fn classify_by_absoluteness() {
    assert_eq!(
        LegacyChannel::classify("x".to_string(), true),
        LegacyChannel::Path("x".to_string())
    );
    assert_eq!(
        LegacyChannel::classify("x".to_string(), false),
        LegacyChannel::Spec("x".to_string())
    );
}

#[test]
fn legacy_toolchain_file_from_str() {
    assert_eq!(
        LegacyToolchainFile::from_str(SAMPLE_PATH),
        Ok(LegacyToolchainFile {
            channel: LegacyChannel::Path(SAMPLE_PATH.to_string())
        })
    );
    assert_eq!(
        LegacyToolchainFile::from_str("channel"),
        Ok(LegacyToolchainFile {
            channel: LegacyChannel::Spec("channel".to_string())
        })
    );
    assert_eq!(
        LegacyToolchainFile::from_str("\u{1f609}"),
        Ok(LegacyToolchainFile::new(LegacyChannel::Spec(
            "\u{1f609}".to_string()
        )))
    );
    assert_eq!(
        LegacyToolchainFile::from_str("a\nb"),
        Err(ParserError::TooManyLines(2))
    );
}

#[test]
fn legacy_toolchain_file_from_str_is_lenient() {
    for content in ["\u{2764}\u{fe0f}", "a\u{FEFF}", &char::MAX.to_string()] {
        let result = LegacyToolchainFile::from_str(content);
        let strict_result = Parser::strict(content).parse();

        assert!(result.is_ok());
        assert!(strict_result.is_err());
    }
}

#[test]
fn error_message() {
    let cases = [
        ("", "Unable to parse legacy toolchain file: toolchain file was empty"),
        ("\u{FFFF}", "Encountered invalid encoding while parsing legacy rust-toolchain file. The expected encoding to be US-ASCII, and lenient encoding was disabled."),
        ("a\nb\nc", "Expected a single line containing the toolchain specifier but found '3' lines."),
    ];
    for (content, error_message) in cases {
        let result = Parser::strict(content).parse();
        assert!(result.is_err());
        assert_eq!(result.unwrap_err().message(), error_message);
    }
}
