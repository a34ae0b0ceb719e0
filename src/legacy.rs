//! The legacy toolchain file: one line holding either a toolchain name or an
//! absolute path to a toolchain.
use vstd::prelude::*;
use vstd::utf8::is_ascii_chars;

verus! {

/// The characters that carry Unicode's `White_Space` property.
pub open spec fn is_white_space(c: char) -> bool {
    let u = c as u32;
    (9 <= u && u <= 13) || u == 32 || u == 0x85 || u == 0xa0 || u == 0x1680 || (0x2000 <= u
        && u <= 0x200a) || u == 0x2028 || u == 0x2029 || u == 0x202f || u == 0x205f || u == 0x3000
}

/// How many white-space characters the text starts with.
pub open spec fn leading_white(s: Seq<char>) -> nat
    decreases s.len(),
{
    if s.len() > 0 && is_white_space(s[0]) {
        1 + leading_white(s.drop_first())
    } else {
        0
    }
}

/// How many white-space characters the text ends with.
pub open spec fn trailing_white(s: Seq<char>) -> nat
    decreases s.len(),
{
    if s.len() > 0 && is_white_space(s.last()) {
        1 + trailing_white(s.drop_last())
    } else {
        0
    }
}

/// The text without its leading and trailing white space.
pub open spec fn trim_white(s: Seq<char>) -> Seq<char> {
    if leading_white(s) >= s.len() {
        Seq::empty()
    } else {
        s.subrange(leading_white(s) as int, s.len() - trailing_white(s))
    }
}

/// How many `'\n'` characters the text holds.
pub open spec fn newline_count(s: Seq<char>) -> nat
    decreases s.len(),
{
    if s.len() == 0 {
        0
    } else {
        newline_count(s.drop_last()) + if s.last() == '\n' {
            1nat
        } else {
            0nat
        }
    }
}

/// How many lines the text splits into: a line ends at `'\n'` (a `'\r'` before
/// it belongs to the terminator) and the last terminator is optional.
pub open spec fn line_count(s: Seq<char>) -> nat {
    newline_count(s) + if s.len() > 0 && s.last() != '\n' {
        1nat
    } else {
        0nat
    }
}

/// Relies on `str::trim`: it removes leading and trailing characters with the
/// `White_Space` property.
#[verifier::external_body]
fn trim(s: &str) -> (r: &str)
    ensures
        r@ == trim_white(s@),
{
    s.trim()
}

/// Relies on `str::lines`: lines end at `"\n"` or `"\r\n"`, and a final
/// terminator adds no line.
#[verifier::external_body]
fn count_lines(s: &str) -> (r: usize)
    ensures
        r == line_count(s@),
{
    s.lines().count()
}

/// Relies on `std::path::Path::is_absolute`, whose answer is the host
/// platform's rule; nothing is assumed of it.
#[verifier::external_body]
fn is_absolute_path(s: &str) -> (r: bool) {
    std::path::Path::new(s).is_absolute()
}

/// Why a legacy toolchain file was rejected.
#[derive(Debug, PartialEq, Eq, Clone, Copy, Structural)]
pub enum ParserError {
    /// Nothing but white space.
    IsEmpty,
    /// Strict mode met a character outside US-ASCII.
    InvalidEncodingStrict,
    /// The content spans this many lines rather than one.
    TooManyLines(usize),
}

impl ParserError {
    /// The human-readable description of the error.
    pub fn message(&self) -> (r: String)
        ensures
            *self == ParserError::IsEmpty ==> r@
                == "Unable to parse legacy toolchain file: toolchain file was empty"@,
            *self == ParserError::InvalidEncodingStrict ==> r@
                == "Encountered invalid encoding while parsing legacy rust-toolchain file. The expected encoding to be US-ASCII, and lenient encoding was disabled."@,
    {
        match self {
            ParserError::IsEmpty => {
                "Unable to parse legacy toolchain file: toolchain file was empty".to_owned()
            },
            ParserError::InvalidEncodingStrict => {
                "Encountered invalid encoding while parsing legacy rust-toolchain file. The expected encoding to be US-ASCII, and lenient encoding was disabled.".to_owned()
            },
            ParserError::TooManyLines(n) => line_count_message(*n),
        }
    }
}

/// Relies on `format!` to render the count in decimal.
#[verifier::external_body]
fn line_count_message(n: usize) -> (r: String) {
    format!("Expected a single line containing the toolchain specifier but found '{}' lines.", n)
}

/// What a legacy file holds: a path to a toolchain or a toolchain name.
#[derive(Debug, PartialEq, Eq, Clone)]
pub enum LegacyChannel {
    Path(String),
    Spec(String),
}

impl LegacyChannel {
    /// The text of the line, whichever way it was classified.
    pub open spec fn text(&self) -> Seq<char> {
        match self {
            LegacyChannel::Path(p) => p@,
            LegacyChannel::Spec(s) => s@,
        }
    }

    /// Classifies a line as a path when `absolute` holds, else as a name.
    pub fn classify(line: String, absolute: bool) -> (r: LegacyChannel)
        ensures
            absolute ==> r == LegacyChannel::Path(line),
            !absolute ==> r == LegacyChannel::Spec(line),
    {
        if absolute {
            LegacyChannel::Path(line)
        } else {
            LegacyChannel::Spec(line)
        }
    }
}

/// The outcome that the legacy rules give for `content`: the accepted line, or
/// the error.
pub open spec fn legacy_outcome(content: Seq<char>, strict: bool) -> Result<Seq<char>, ParserError> {
    let t = trim_white(content);
    if strict && !is_ascii_chars(content) {
        Err(ParserError::InvalidEncodingStrict)
    } else if t.len() == 0 {
        Err(ParserError::IsEmpty)
    } else if line_count(t) != 1 {
        Err(ParserError::TooManyLines(line_count(t) as usize))
    } else {
        Ok(t)
    }
}

/// `r` is what parsing `content` may give: the error of the rules, or a file
/// whose channel holds the accepted line.
pub open spec fn legacy_parsed(
    content: Seq<char>,
    strict: bool,
    r: Result<LegacyToolchainFile, ParserError>,
) -> bool {
    match legacy_outcome(content, strict) {
        Err(e) => r == Err::<LegacyToolchainFile, ParserError>(e),
        Ok(t) => r is Ok && r->Ok_0.channel.text() == t,
    }
}

/// The legacy toolchain file.
#[derive(Debug, PartialEq, Eq, Clone)]
pub struct LegacyToolchainFile {
    pub channel: LegacyChannel,
}

impl LegacyToolchainFile {
    pub fn new(channel: LegacyChannel) -> (r: LegacyToolchainFile)
        ensures
            r.channel == channel,
    {
        LegacyToolchainFile { channel }
    }

    /// Parses leniently, as `Parser::new` does.
    pub fn from_str(content: &str) -> (r: Result<LegacyToolchainFile, ParserError>)
        ensures
            legacy_parsed(content@, false, r),
    {
        Parser::new(content).parse()
    }

    pub fn channel(&self) -> (r: &LegacyChannel)
        ensures
            *r == self.channel,
    {
        &self.channel
    }

    /// The toolchain path, where the file holds a path.
    pub fn path(&self) -> (r: Option<&str>)
        ensures
            match self.channel {
                LegacyChannel::Path(p) => r is Some && r->0@ == p@,
                LegacyChannel::Spec(_) => r is None,
            },
    {
        match &self.channel {
            LegacyChannel::Path(p) => Some(p.as_str()),
            LegacyChannel::Spec(_) => None,
        }
    }

    /// The toolchain name, where the file holds a name.
    pub fn spec(&self) -> (r: Option<&str>)
        ensures
            match self.channel {
                LegacyChannel::Spec(s) => r is Some && r->0@ == s@,
                LegacyChannel::Path(_) => r is None,
            },
    {
        match &self.channel {
            LegacyChannel::Spec(s) => Some(s.as_str()),
            LegacyChannel::Path(_) => None,
        }
    }
}

impl std::str::FromStr for LegacyToolchainFile {
    type Err = ParserError;

    fn from_str(content: &str) -> Result<LegacyToolchainFile, ParserError> {
        Parser::new(content).parse()
    }
}

/// A parser for the legacy format. The format is specified as US-ASCII; a
/// lenient parser accepts any UTF-8 text as well.
pub struct Parser<'content> {
    pub content: &'content str,
    pub strict: bool,
}

impl<'content> Parser<'content> {
    /// A parser that accepts any UTF-8 content.
    pub fn new(content: &'content str) -> (r: Parser<'content>)
        ensures
            r.content == content,
            !r.strict,
    {
        Parser { content, strict: false }
    }

    /// A parser that accepts US-ASCII content only.
    pub fn strict(content: &'content str) -> (r: Parser<'content>)
        ensures
            r.content == content,
            r.strict,
    {
        Parser { content, strict: true }
    }

    pub fn parse(&self) -> (r: Result<LegacyToolchainFile, ParserError>)
        ensures
            legacy_parsed(self.content@, self.strict, r),
    {
        if self.strict && !self.content.is_ascii() {
            return Err(ParserError::InvalidEncodingStrict);
        }
        let content = trim(self.content);
        if content.is_empty() {
            return Err(ParserError::IsEmpty);
        }
        let line_count = count_lines(content);
        if line_count != 1 {
            return Err(ParserError::TooManyLines(line_count));
        }
        let channel = LegacyChannel::classify(content.to_owned(), is_absolute_path(content));
        Ok(LegacyToolchainFile { channel })
    }
}

proof fn lemma_leading_white_bounded(s: Seq<char>)
    ensures
        leading_white(s) <= s.len(),
        forall|i: int| 0 <= i < leading_white(s) ==> is_white_space(#[trigger] s[i]),
        leading_white(s) < s.len() ==> !is_white_space(s[leading_white(s) as int]),
    decreases s.len(),
{
    if s.len() > 0 && is_white_space(s[0]) {
        lemma_leading_white_bounded(s.drop_first());
        assert forall|i: int| 0 <= i < leading_white(s) implies is_white_space(#[trigger] s[i]) by {
            if i > 0 {
                assert(s[i] == s.drop_first()[i - 1]);
            }
        }
    }
}

proof fn lemma_trailing_white_bounded(s: Seq<char>)
    ensures
        trailing_white(s) <= s.len(),
        forall|i: int| s.len() - trailing_white(s) <= i < s.len() ==> is_white_space(#[trigger] s[i]),
    decreases s.len(),
{
    if s.len() > 0 && is_white_space(s.last()) {
        lemma_trailing_white_bounded(s.drop_last());
        assert forall|i: int| s.len() - trailing_white(s) <= i < s.len() implies is_white_space(#[trigger] s[i]) by {
            if i < s.len() - 1 {
                assert(s[i] == s.drop_last()[i]);
            }
        }
    }
}

/// The trimmed text is a piece of the text: it starts after the leading white
/// space and ends before the trailing white space.
proof fn lemma_trim_is_piece(s: Seq<char>)
    ensures
        trim_white(s).len() > 0 ==> {
            let a = leading_white(s) as int;
            let b = s.len() - trailing_white(s);
            &&& 0 <= a < b <= s.len()
            &&& trim_white(s) == s.subrange(a, b)
        },
        trim_white(s).len() == 0 <==> forall|i: int| 0 <= i < s.len() ==> is_white_space(#[trigger] s[i]),
{
    lemma_leading_white_bounded(s);
    lemma_trailing_white_bounded(s);
    let a = leading_white(s) as int;
    let b = s.len() - trailing_white(s);
    if a < s.len() {
        // the first character that is not white space lies before the trailing white space
        assert(a < b);
        assert(trim_white(s).len() == b - a);
        assert(!is_white_space(s[a]));
    }
}

proof fn lemma_no_newline_count(s: Seq<char>)
    requires
        forall|i: int| 0 <= i < s.len() ==> #[trigger] s[i] != '\n',
    ensures
        newline_count(s) == 0,
    decreases s.len(),
{
    if s.len() > 0 {
        assert(s.last() == s[s.len() - 1]);
        lemma_no_newline_count(s.drop_last());
    }
}

/// A text whose trimmed form is one non-empty line is accepted by a lenient
/// parser, and the channel holds exactly the trimmed line.
pub proof fn lemma_single_line_accepted(s: Seq<char>)
    requires
        forall|i: int| 0 <= i < s.len() ==> #[trigger] s[i] != '\n',
        trim_white(s).len() > 0,
    ensures
        legacy_outcome(s, false) == Ok::<Seq<char>, ParserError>(trim_white(s)),
{
    lemma_trim_is_piece(s);
    let t = trim_white(s);
    assert forall|i: int| 0 <= i < t.len() implies #[trigger] t[i] != '\n' by {
        assert(t[i] == s[i + leading_white(s)]);
    }
    lemma_no_newline_count(t);
    assert(t.last() == t[t.len() - 1]);
}

/// A text whose trimmed form spans two or more lines is rejected with its line
/// count, by a lenient parser, and by a strict one where the text is US-ASCII.
pub proof fn lemma_many_lines_rejected(s: Seq<char>, strict: bool)
    requires
        line_count(trim_white(s)) >= 2,
        strict ==> is_ascii_chars(s),
    ensures
        legacy_outcome(s, strict) == Err::<Seq<char>, ParserError>(
            ParserError::TooManyLines(line_count(trim_white(s)) as usize),
        ),
{
    let t = trim_white(s);
    if t.len() == 0 {
        assert(newline_count(t) == 0);
    }
}

/// A text made of white space alone is rejected as empty, by a lenient parser,
/// and by a strict one where the text is US-ASCII.
pub proof fn lemma_blank_rejected(s: Seq<char>, strict: bool)
    requires
        forall|i: int| 0 <= i < s.len() ==> is_white_space(#[trigger] s[i]),
        strict ==> is_ascii_chars(s),
    ensures
        legacy_outcome(s, strict) == Err::<Seq<char>, ParserError>(ParserError::IsEmpty),
{
    lemma_trim_is_piece(s);
}

/// A text with a character outside US-ASCII is rejected by a strict parser,
/// while a lenient one accepts it when its trimmed form is one non-empty line.
pub proof fn lemma_strictness(s: Seq<char>)
    requires
        !is_ascii_chars(s),
    ensures
        legacy_outcome(s, true) == Err::<Seq<char>, ParserError>(ParserError::InvalidEncodingStrict),
        (forall|i: int| 0 <= i < s.len() ==> #[trigger] s[i] != '\n') && trim_white(s).len() > 0
            ==> legacy_outcome(s, false) == Ok::<Seq<char>, ParserError>(trim_white(s)),
{
    if (forall|i: int| 0 <= i < s.len() ==> #[trigger] s[i] != '\n') && trim_white(s).len() > 0 {
        lemma_single_line_accepted(s);
    }
}

} // verus!
