//! Recognition of project toolchain-pinning files, in the single-line legacy
//! format and in the TOML format, with a strategy layer that tries one format
//! and may fall back to the other.
use vstd::prelude::*;
use vstd::utf8::{encode_utf8, encode_utf8_decode_utf8, encode_utf8_valid_utf8};

pub mod legacy;
pub mod toml;
pub mod toml_doc;

pub use legacy::LegacyToolchainFile;
pub use toml::RustToolchainToml;

use legacy::{legacy_outcome, legacy_parsed, trim_white};
use toml::{decode_root, toml_parsed, Diagnostic};
use toml_doc::toml_document;

verus! {

/// A toolchain file in either format.
#[derive(Debug, PartialEq, Eq)]
pub enum ToolchainFile {
    /// A file in the single-line legacy format.
    Legacy(LegacyToolchainFile),
    /// A file in the TOML format.
    Toml(RustToolchainToml),
}

/// The formats of toolchain file.
#[derive(Debug, Copy, Clone, PartialEq, Eq, Structural)]
pub enum Variant {
    Legacy,
    Toml,
}

/// Which format to parse, or which to try first and which to fall back to.
#[derive(Debug, Copy, Clone, PartialEq, Eq, Structural)]
pub enum ParseStrategy {
    Only(Variant),
    Fallback { first: Variant, fallback_to: Variant },
}

/// Why a toolchain file was rejected.
#[derive(Debug, PartialEq, Eq)]
pub enum ParserError {
    LegacyParseError(legacy::ParserError),
    TomlParseError(toml::ParserError),
    FallbackError(FallbackError),
}

/// Both attempts of a fallback failed: the two errors, in the order tried.
#[derive(Debug, PartialEq, Eq)]
pub struct FallbackError {
    pub first: Box<ParserError>,
    pub fallback_to: Box<ParserError>,
}

impl FallbackError {
    pub fn first(&self) -> (r: &ParserError)
        ensures
            *r == *self.first,
    {
        &self.first
    }

    pub fn fallback_to(&self) -> (r: &ParserError)
        ensures
            *r == *self.fallback_to,
    {
        &self.fallback_to
    }
}

/// Whether parsing `content` in format `v` succeeds.
pub open spec fn variant_succeeds(v: Variant, content: Seq<char>) -> bool {
    match v {
        Variant::Legacy => legacy_outcome(content, false) is Ok,
        Variant::Toml => match toml_document(content) {
            Some(root) => decode_root(root) is Ok,
            None => false,
        },
    }
}

/// `r` is what parsing `content` in format `v` gives: the lenient legacy parser,
/// or the TOML parser on the UTF-8 bytes of the text.
pub open spec fn variant_parsed(v: Variant, content: Seq<char>, r: Result<ToolchainFile, ParserError>) -> bool {
    match v {
        Variant::Legacy => match r {
            Ok(ToolchainFile::Legacy(f)) => legacy_parsed(content, false, Ok(f)),
            Err(ParserError::LegacyParseError(e)) => legacy_parsed(content, false, Err(e)),
            _ => false,
        },
        Variant::Toml => match r {
            Ok(ToolchainFile::Toml(t)) => toml_parsed(encode_utf8(content), Ok(t)),
            Err(ParserError::TomlParseError(e)) => toml_parsed(encode_utf8(content), Err(e)),
            _ => false,
        },
    }
}

/// `r` is what parsing `content` with `strategy` gives. A fallback returns the
/// first format's success, else the second format's success, else both errors.
pub open spec fn strategy_parsed(
    strategy: ParseStrategy,
    content: Seq<char>,
    r: Result<ToolchainFile, ParserError>,
) -> bool {
    match strategy {
        ParseStrategy::Only(v) => variant_parsed(v, content, r),
        ParseStrategy::Fallback { first, fallback_to } => if variant_succeeds(first, content) {
            variant_parsed(first, content, r)
        } else if variant_succeeds(fallback_to, content) {
            variant_parsed(fallback_to, content, r)
        } else {
            &&& r matches Err(ParserError::FallbackError(fe))
            &&& variant_parsed(first, content, Err(*r->Err_0->FallbackError_0.first))
            &&& variant_parsed(fallback_to, content, Err(*r->Err_0->FallbackError_0.fallback_to))
        },
    }
}

/// A result of parsing in one format is a success exactly when that format
/// accepts the text.
proof fn lemma_parsed_ok_iff_succeeds(v: Variant, content: Seq<char>, r: Result<ToolchainFile, ParserError>)
    requires
        variant_parsed(v, content, r),
    ensures
        r is Ok <==> variant_succeeds(v, content),
{
    broadcast use encode_utf8_valid_utf8, encode_utf8_decode_utf8;

}

impl Variant {
    fn parse_with(&self, content: &str) -> (r: Result<ToolchainFile, ParserError>)
        ensures
            variant_parsed(*self, content@, r),
    {
        match self {
            Variant::Legacy => match legacy::Parser::new(content).parse() {
                Ok(f) => Ok(ToolchainFile::Legacy(f)),
                Err(e) => Err(ParserError::LegacyParseError(e)),
            },
            Variant::Toml => match toml::Parser::new(content).parse() {
                Ok(t) => Ok(ToolchainFile::Toml(t)),
                Err(e) => Err(ParserError::TomlParseError(e)),
            },
        }
    }
}

/// A parser for either format of toolchain file.
pub struct Parser<'content> {
    pub content: &'content str,
    pub parse_option: ParseStrategy,
}

impl<'content> Parser<'content> {
    pub fn new(content: &'content str, parse_option: ParseStrategy) -> (r: Parser<'content>)
        ensures
            r.content == content,
            r.parse_option == parse_option,
    {
        Parser { content, parse_option }
    }

    pub fn parse(&self) -> (r: Result<ToolchainFile, ParserError>)
        ensures
            strategy_parsed(self.parse_option, self.content@, r),
    {
        match self.parse_option {
            ParseStrategy::Only(v) => v.parse_with(self.content),
            ParseStrategy::Fallback { first, fallback_to } => {
                let attempt = first.parse_with(self.content);
                proof {
                    lemma_parsed_ok_iff_succeeds(first, self.content@, attempt);
                }
                match attempt {
                    Ok(f) => Ok(f),
                    Err(first_err) => {
                        let fallback = fallback_to.parse_with(self.content);
                        proof {
                            lemma_parsed_ok_iff_succeeds(fallback_to, self.content@, fallback);
                        }
                        match fallback {
                            Ok(f) => Ok(f),
                            Err(fallback_err) => Err(
                                ParserError::FallbackError(
                                    FallbackError {
                                        first: Box::new(first_err),
                                        fallback_to: Box::new(fallback_err),
                                    },
                                ),
                            ),
                        }
                    },
                }
            },
        }
    }
}

/// Trying the legacy format first, a text whose trimmed form is one non-empty
/// line gives a legacy file holding that line, whatever TOML makes of the text.
pub proof fn lemma_fallback_takes_legacy_line(content: Seq<char>, r: Result<ToolchainFile, ParserError>)
    requires
        forall|i: int| 0 <= i < content.len() ==> #[trigger] content[i] != '\n',
        trim_white(content).len() > 0,
        strategy_parsed(
            ParseStrategy::Fallback { first: Variant::Legacy, fallback_to: Variant::Toml },
            content,
            r,
        ),
    ensures
        r matches Ok(ToolchainFile::Legacy(f)) && f.channel.text() == trim_white(content),
{
    legacy::lemma_single_line_accepted(content);
}

/// Parsing only as TOML, a text that is not a TOML document fails with a
/// syntax diagnostic.
pub proof fn lemma_toml_only_rejects_non_toml(content: Seq<char>, r: Result<ToolchainFile, ParserError>)
    requires
        toml_document(content) is None,
        strategy_parsed(ParseStrategy::Only(Variant::Toml), content, r),
    ensures
        r matches Err(ParserError::TomlParseError(toml::ParserError::TomlParse(Diagnostic::Syntax(_)))),
{
    broadcast use encode_utf8_valid_utf8, encode_utf8_decode_utf8;

}

} // verus!
