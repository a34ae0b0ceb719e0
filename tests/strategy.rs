use rust_toolchain_file::legacy::{self, LegacyChannel};
use rust_toolchain_file::toml::{self, Diagnostic};
use rust_toolchain_file::{LegacyToolchainFile, ParseStrategy, Parser, ParserError, ToolchainFile, Variant};

const LEGACY_ONLY: &str = "nightly-2020-07-10\n";

const TOML_LOCAL_PATH: &str = "[toolchain]
path = \"/path/to/local/toolchain\"
";

const TOML_WITH_EXT: &str = "[toolchain]
channel = \"nightly-2020-07-10\"
components = [ \"rustfmt\", \"rustc-dev\" ]
targets = [ \"wasm32-unknown-unknown\", \"thumbv2-none-eabi\" ]
profile = \"minimal\"
";

const TOML_WITHOUT_EXT: &str = "[toolchain]
channel = \"nightly-2020-07-10\"
components = [ \"rustfmt\", \"rustc-dev\" ]
";

fn all_strategies() -> [ParseStrategy; 4] {
    [
        ParseStrategy::Only(Variant::Legacy),
        ParseStrategy::Only(Variant::Toml),
        ParseStrategy::Fallback {
            first: Variant::Legacy,
            fallback_to: Variant::Toml,
        },
        ParseStrategy::Fallback {
            first: Variant::Toml,
            fallback_to: Variant::Legacy,
        },
    ]
}

#[test]
fn parser_new_keeps_content_and_strategy() {
    for option in all_strategies() {
        let content = "hello-world";
        let parser = Parser::new(content, option);

        assert_eq!(parser.content, content);
        assert_eq!(parser.parse_option, option);
    }
}

#[test]
fn accept_legacy() {
    let option = ParseStrategy::Only(Variant::Legacy);
    let parser = Parser::new(LEGACY_ONLY, option);

    let result = parser.parse();
    assert_eq!(
        result.unwrap(),
        ToolchainFile::Legacy(LegacyToolchainFile::new(LegacyChannel::Spec(
            "nightly-2020-07-10".to_string()
        )))
    )
}

#[test]
fn reject_toml() {
    let option = ParseStrategy::Only(Variant::Legacy);
    let parser = Parser::new(TOML_LOCAL_PATH, option);

    let result = parser.parse();
    assert_eq!(
        result.unwrap_err(),
        ParserError::LegacyParseError(legacy::ParserError::TooManyLines(2))
    )
}

#[test]
fn accept_toml() {
    for content in [TOML_LOCAL_PATH, TOML_WITH_EXT, TOML_WITHOUT_EXT] {
        let option = ParseStrategy::Only(Variant::Toml);
        let parser = Parser::new(content, option);

        let result = parser.parse();
        assert!(matches!(result.unwrap(), ToolchainFile::Toml(_)))
    }
}

#[test]
fn reject_legacy() {
    let option = ParseStrategy::Only(Variant::Toml);
    let parser = Parser::new(LEGACY_ONLY, option);

    let result = parser.parse();
    assert!(matches!(
        result.unwrap_err(),
        ParserError::TomlParseError(toml::ParserError::TomlParse(_))
    ));
}

#[test]
fn accept_legacy_first_try() {
    let strategy = ParseStrategy::Fallback {
        first: Variant::Legacy,
        fallback_to: Variant::Toml,
    };

    let parser = Parser::new(LEGACY_ONLY, strategy);

    let result = parser.parse();
    assert_eq!(
        result.unwrap(),
        ToolchainFile::Legacy(LegacyToolchainFile::new(LegacyChannel::Spec(
            "nightly-2020-07-10".to_string()
        )))
    );
}

#[test]
fn legacy_first_wins_over_valid_toml_line() {
    // one line that is also a complete TOML document
    let content = "toolchain = { channel = \"stable\" }";
    let strategy = ParseStrategy::Fallback {
        first: Variant::Legacy,
        fallback_to: Variant::Toml,
    };
    assert_eq!(
        Parser::new(content, strategy).parse().unwrap(),
        ToolchainFile::Legacy(LegacyToolchainFile::new(LegacyChannel::Spec(
            content.to_string()
        )))
    );
    let toml_first = ParseStrategy::Fallback {
        first: Variant::Toml,
        fallback_to: Variant::Legacy,
    };
    assert!(matches!(
        Parser::new(content, toml_first).parse().unwrap(),
        ToolchainFile::Toml(_)
    ));
}

#[test]
fn fallback_to_toml() {
    let strategy = ParseStrategy::Fallback {
        first: Variant::Legacy,
        fallback_to: Variant::Toml,
    };

    let parser = Parser::new(TOML_WITHOUT_EXT, strategy);

    let result = parser.parse();
    assert!(matches!(result.unwrap(), ToolchainFile::Toml(_)));
}

#[test]
fn fallback_to_legacy() {
    let strategy = ParseStrategy::Fallback {
        first: Variant::Toml,
        fallback_to: Variant::Legacy,
    };

    let result = Parser::new(LEGACY_ONLY, strategy).parse();
    assert_eq!(
        result.unwrap(),
        ToolchainFile::Legacy(LegacyToolchainFile::new(LegacyChannel::Spec(
            "nightly-2020-07-10".to_string()
        )))
    );
}

#[test]
fn fail_to_parse() {
    let strategy = ParseStrategy::Fallback {
        first: Variant::Legacy,
        fallback_to: Variant::Toml,
    };

    let parser = Parser::new("", strategy);

    let result = parser.parse();
    let error = result.unwrap_err();

    assert!(matches!(error, ParserError::FallbackError(_)));

    if let ParserError::FallbackError(inner) = error {
        assert_eq!(
            inner.first(),
            &ParserError::LegacyParseError(legacy::ParserError::IsEmpty)
        );
        assert!(matches!(
            inner.fallback_to(),
            ParserError::TomlParseError(_)
        ));
        assert_eq!(
            inner.fallback_to(),
            &ParserError::TomlParseError(toml::ParserError::TomlParse(
                Diagnostic::MissingToolchain
            ))
        );
    }
}

#[test]
fn fallback_failure_keeps_order_of_attempts() {
    let strategy = ParseStrategy::Fallback {
        first: Variant::Toml,
        fallback_to: Variant::Legacy,
    };
    let error = Parser::new("a\nb", strategy).parse().unwrap_err();
    match error {
        ParserError::FallbackError(inner) => {
            assert!(matches!(
                inner.first(),
                ParserError::TomlParseError(toml::ParserError::TomlParse(Diagnostic::Syntax(_)))
            ));
            assert_eq!(
                inner.fallback_to(),
                &ParserError::LegacyParseError(legacy::ParserError::TooManyLines(2))
            );
        }
        other => panic!("expected a fallback error, got {:?}", other),
    }
}
