//! The TOML toolchain file: a `toolchain` table that holds either a path to a
//! toolchain or a specification of one.
use vstd::prelude::*;
use vstd::string::StringSliceAdditionalSpecFns;
use vstd::utf8::{decode_utf8, encode_utf8, encode_utf8_decode_utf8, valid_utf8};

use crate::toml_doc::{
    item_index, item_is_array, item_is_table_like, item_key, item_str, parse_document,
    toml_document, toml_node, TomlNode,
};

verus! {

/// Relies on `std::str::from_utf8`: it succeeds exactly on valid UTF-8 and
/// returns the text with those bytes.
#[verifier::external_body]
fn utf8_text(b: &[u8]) -> (r: Option<&str>)
    ensures
        r is Some <==> valid_utf8(b@),
        r is Some ==> r->0.spec_bytes() == b@,
{
    std::str::from_utf8(b).ok()
}

/// A field of the toolchain specification.
#[derive(Debug, PartialEq, Eq, Clone, Copy, Structural)]
pub enum Field {
    Channel,
    Components,
    Targets,
    Profile,
}

/// Why a TOML toolchain file could not be decoded.
#[derive(Debug, PartialEq, Eq)]
pub enum Diagnostic {
    /// The bytes are not UTF-8.
    InvalidUtf8,
    /// The text is not a TOML document.
    Syntax(toml_edit::TomlError),
    /// The document has no `toolchain` key.
    MissingToolchain,
    /// The `toolchain` value is not a table.
    UnmatchedShape,
    /// A field of the specification has the wrong type.
    InvalidField(Field),
}

/// Why a TOML toolchain file was rejected.
#[derive(Debug, PartialEq, Eq)]
pub enum ParserError {
    TomlParse(Diagnostic),
}

/// The specification as plain values.
pub struct SpecView {
    pub channel: Option<Seq<char>>,
    pub components: Option<Seq<Seq<char>>>,
    pub targets: Option<Seq<Seq<char>>>,
    pub profile: Option<Seq<char>>,
}

/// The `toolchain` section as plain values.
pub enum SectionView {
    Path(Seq<char>),
    Spec(SpecView),
}

/// A string field of a table: `Some(None)` when absent, `None` when it holds
/// something other than a string.
pub open spec fn text_entry(m: Map<Seq<char>, TomlNode>, key: Seq<char>) -> Option<Option<Seq<char>>> {
    if !m.contains_key(key) {
        Some(None)
    } else {
        match m[key] {
            TomlNode::Text(s) => Some(Some(s)),
            _ => None,
        }
    }
}

/// A list-of-strings field of a table: `Some(None)` when absent, `None` when it
/// holds something other than an array of strings.
pub open spec fn list_entry(m: Map<Seq<char>, TomlNode>, key: Seq<char>) -> Option<Option<Seq<Seq<char>>>> {
    if !m.contains_key(key) {
        Some(None)
    } else {
        match m[key] {
            TomlNode::Array(s) => if forall|i: int| 0 <= i < s.len() ==> #[trigger] s[i] is Text {
                Some(Some(s.map_values(|n: TomlNode| n->Text_0)))
            } else {
                None
            },
            _ => None,
        }
    }
}

/// A table read as a toolchain specification; unknown keys are ignored.
pub open spec fn decode_spec(m: Map<Seq<char>, TomlNode>) -> Result<SpecView, Diagnostic> {
    let channel = text_entry(m, "channel"@);
    let components = list_entry(m, "components"@);
    let targets = list_entry(m, "targets"@);
    let profile = text_entry(m, "profile"@);
    if channel is None {
        Err(Diagnostic::InvalidField(Field::Channel))
    } else if components is None {
        Err(Diagnostic::InvalidField(Field::Components))
    } else if targets is None {
        Err(Diagnostic::InvalidField(Field::Targets))
    } else if profile is None {
        Err(Diagnostic::InvalidField(Field::Profile))
    } else {
        Ok(
            SpecView {
                channel: channel->Some_0,
                components: components->Some_0,
                targets: targets->Some_0,
                profile: profile->Some_0,
            },
        )
    }
}

/// The `toolchain` value read as a section: a table with a string `path` is a
/// path, any other table a specification.
pub open spec fn decode_section(n: TomlNode) -> Result<SectionView, Diagnostic> {
    match n {
        TomlNode::Table(m) => if m.contains_key("path"@) && m["path"@] is Text {
            Ok(SectionView::Path(m["path"@]->Text_0))
        } else {
            match decode_spec(m) {
                Ok(v) => Ok(SectionView::Spec(v)),
                Err(d) => Err(d),
            }
        },
        _ => Err(Diagnostic::UnmatchedShape),
    }
}

/// The root table of a document read as a toolchain file.
pub open spec fn decode_root(root: TomlNode) -> Result<SectionView, Diagnostic> {
    match root {
        TomlNode::Table(m) => if m.contains_key("toolchain"@) {
            decode_section(m["toolchain"@])
        } else {
            Err(Diagnostic::MissingToolchain)
        },
        _ => Err(Diagnostic::MissingToolchain),
    }
}

/// `r` is what decoding the bytes `b` gives.
pub open spec fn toml_parsed(b: Seq<u8>, r: Result<RustToolchainToml, ParserError>) -> bool {
    if !valid_utf8(b) {
        r == Err::<RustToolchainToml, ParserError>(ParserError::TomlParse(Diagnostic::InvalidUtf8))
    } else {
        match toml_document(decode_utf8(b)) {
            None => r matches Err(ParserError::TomlParse(Diagnostic::Syntax(_))),
            Some(root) => decoded(decode_root(root), r),
        }
    }
}

/// `r` carries the outcome `d` of decoding a document.
pub open spec fn decoded(d: Result<SectionView, Diagnostic>, r: Result<RustToolchainToml, ParserError>) -> bool {
    match d {
        Ok(v) => r is Ok && r->Ok_0@ == v,
        Err(e) => r == Err::<RustToolchainToml, ParserError>(ParserError::TomlParse(e)),
    }
}

/// A type that wraps one name.
pub trait Named: Sized {
    spec fn name_view(&self) -> Seq<char>;

    fn from_name(name: String) -> (r: Self)
        ensures
            r.name_view() == name@,
    ;
}

/// The names that a list of wrapped names holds.
pub open spec fn names_of<T: Named>(v: Seq<T>) -> Seq<Seq<char>> {
    v.map_values(|x: T| x.name_view())
}

/// Reads an optional string field of a table.
fn text_field(table: &toml_edit::Item, key: &str, field: Field) -> (r: Result<
    Option<String>,
    Diagnostic,
>)
    requires
        toml_node(*table) is Table,
    ensures
        match text_entry(toml_node(*table)->Table_0, key@) {
            None => r == Err::<Option<String>, Diagnostic>(Diagnostic::InvalidField(field)),
            Some(None) => r == Ok::<Option<String>, Diagnostic>(None),
            Some(Some(s)) => r is Ok && r->Ok_0 is Some && r->Ok_0->Some_0@ == s,
        },
{
    match item_key(table, key) {
        None => Ok(None),
        Some(value) => match item_str(value) {
            Some(text) => Ok(Some(text.to_owned())),
            None => Err(Diagnostic::InvalidField(field)),
        },
    }
}

/// Reads an optional list-of-strings field of a table, keeping order and
/// repetitions.
fn list_field<T: Named>(table: &toml_edit::Item, key: &str, field: Field) -> (r: Result<
    Option<Vec<T>>,
    Diagnostic,
>)
    requires
        toml_node(*table) is Table,
    ensures
        match list_entry(toml_node(*table)->Table_0, key@) {
            None => r matches Err(d) && d == Diagnostic::InvalidField(field),
            Some(None) => r matches Ok(None),
            Some(Some(l)) => r is Ok && r->Ok_0 is Some && names_of(r->Ok_0->Some_0@) == l,
        },
{
    let list = match item_key(table, key) {
        None => return Ok(None),
        Some(list) => list,
    };
    if !item_is_array(list) {
        return Err(Diagnostic::InvalidField(field));
    }
    let ghost s = toml_node(*list)->Array_0;
    let mut out: Vec<T> = Vec::new();
    let mut i: usize = 0;
    loop
        invariant
            toml_node(*list) == TomlNode::Array(s),
            toml_node(*table)->Table_0.contains_key(key@),
            toml_node(*table)->Table_0[key@] == TomlNode::Array(s),
            i <= s.len(),
            out@.len() == i,
            forall|j: int| 0 <= j < i ==> #[trigger] s[j] is Text,
            forall|j: int| 0 <= j < i ==> (#[trigger] out@[j]).name_view() == s[j]->Text_0,
        decreases s.len() - i,
    {
        match item_index(list, i) {
            None => {
                assert(names_of(out@) =~= s.map_values(|n: TomlNode| n->Text_0));
                return Ok(Some(out));
            },
            Some(elem) => match item_str(elem) {
                None => return Err(Diagnostic::InvalidField(field)),
                Some(text) => {
                    out.push(T::from_name(text.to_owned()));
                    i = out.len();
                },
            },
        }
    }
}

/// Reads a table as a toolchain specification.
fn spec_of(table: &toml_edit::Item) -> (r: Result<ToolchainSpec, Diagnostic>)
    requires
        toml_node(*table) is Table,
    ensures
        match decode_spec(toml_node(*table)->Table_0) {
            Ok(v) => r is Ok && r->Ok_0@ == v,
            Err(e) => r == Err::<ToolchainSpec, Diagnostic>(e),
        },
{
    let channel = match text_field(table, "channel", Field::Channel) {
        Ok(c) => c,
        Err(e) => return Err(e),
    };
    let components = match list_field::<Component>(table, "components", Field::Components) {
        Ok(c) => c,
        Err(e) => return Err(e),
    };
    let targets = match list_field::<Target>(table, "targets", Field::Targets) {
        Ok(t) => t,
        Err(e) => return Err(e),
    };
    let profile = match text_field(table, "profile", Field::Profile) {
        Ok(p) => p,
        Err(e) => return Err(e),
    };
    let channel = match channel {
        Some(c) => Some(Channel(c)),
        None => None,
    };
    let profile = match profile {
        Some(p) => Some(Profile(p)),
        None => None,
    };
    Ok(ToolchainSpec { channel, components, targets, profile })
}

/// Reads the `toolchain` value as a section.
fn section_of(item: &toml_edit::Item) -> (r: Result<ToolchainSection, Diagnostic>)
    ensures
        match decode_section(toml_node(*item)) {
            Ok(v) => r is Ok && r->Ok_0@ == v,
            Err(e) => r == Err::<ToolchainSection, Diagnostic>(e),
        },
{
    if !item_is_table_like(item) {
        return Err(Diagnostic::UnmatchedShape);
    }
    if let Some(path) = item_key(item, "path") {
        if let Some(text) = item_str(path) {
            return Ok(ToolchainSection::Path(ToolchainPath { path: text.to_owned() }));
        }
    }
    match spec_of(item) {
        Ok(spec) => Ok(ToolchainSection::Spec(spec)),
        Err(e) => Err(e),
    }
}

/// Reads the root item of a parsed TOML document as a toolchain file.
pub fn decode_document(root: &toml_edit::Item) -> (r: Result<RustToolchainToml, ParserError>)
    ensures
        decoded(decode_root(toml_node(*root)), r),
{
    if !item_is_table_like(root) {
        return Err(ParserError::TomlParse(Diagnostic::MissingToolchain));
    }
    let toolchain = match item_key(root, "toolchain") {
        None => return Err(ParserError::TomlParse(Diagnostic::MissingToolchain)),
        Some(t) => t,
    };
    match section_of(toolchain) {
        Ok(toolchain) => Ok(RustToolchainToml { toolchain }),
        Err(e) => Err(ParserError::TomlParse(e)),
    }
}

/// A parser for the TOML format.
pub struct Parser<'content> {
    pub content: &'content [u8],
}

impl<'content> Parser<'content> {
    /// A parser of the UTF-8 bytes of `content`.
    pub fn new(content: &'content str) -> (r: Parser<'content>)
        ensures
            r.content@ == encode_utf8(content@),
    {
        Parser { content: content.as_bytes() }
    }

    /// A parser of raw bytes.
    pub fn from_slice(content: &'content [u8]) -> (r: Parser<'content>)
        ensures
            r.content@ == content@,
    {
        Parser { content }
    }

    /// The bytes that this parser reads.
    pub fn content(&self) -> (r: &'content [u8])
        ensures
            r@ == self.content@,
    {
        self.content
    }

    pub fn parse(&self) -> (r: Result<RustToolchainToml, ParserError>)
        ensures
            toml_parsed(self.content@, r),
    {
        let text = match utf8_text(self.content) {
            None => return Err(ParserError::TomlParse(Diagnostic::InvalidUtf8)),
            Some(text) => text,
        };
        proof {
            encode_utf8_decode_utf8(text@);
        }
        match parse_document(text) {
            Err(e) => Err(ParserError::TomlParse(Diagnostic::Syntax(e))),
            Ok(root) => decode_document(&root),
        }
    }
}

/// A TOML toolchain file.
#[derive(Clone, Debug, PartialEq, Eq)]
pub struct RustToolchainToml {
    pub toolchain: ToolchainSection,
}

impl View for RustToolchainToml {
    type V = SectionView;

    open spec fn view(&self) -> SectionView {
        self.toolchain@
    }
}

impl RustToolchainToml {
    pub fn toolchain(&self) -> (r: &ToolchainSection)
        ensures
            *r == self.toolchain,
    {
        &self.toolchain
    }
}

/// The `toolchain` section: a path, or a specification.
#[derive(Clone, Debug, PartialEq, Eq)]
pub enum ToolchainSection {
    Path(ToolchainPath),
    Spec(ToolchainSpec),
}

impl View for ToolchainSection {
    type V = SectionView;

    open spec fn view(&self) -> SectionView {
        match self {
            ToolchainSection::Path(p) => SectionView::Path(p.path@),
            ToolchainSection::Spec(s) => SectionView::Spec(s@),
        }
    }
}

impl ToolchainSection {
    pub fn path(&self) -> (r: Option<&ToolchainPath>)
        ensures
            match self {
                ToolchainSection::Path(p) => r == Some(p),
                ToolchainSection::Spec(_) => r is None,
            },
    {
        match self {
            ToolchainSection::Path(p) => Some(p),
            ToolchainSection::Spec(_) => None,
        }
    }

    pub fn spec(&self) -> (r: Option<&ToolchainSpec>)
        ensures
            match self {
                ToolchainSection::Spec(s) => r == Some(s),
                ToolchainSection::Path(_) => r is None,
            },
    {
        match self {
            ToolchainSection::Spec(s) => Some(s),
            ToolchainSection::Path(_) => None,
        }
    }
}

/// A toolchain specification; each field is optional.
#[derive(Clone, Debug, PartialEq, Eq)]
pub struct ToolchainSpec {
    pub channel: Option<Channel>,
    pub components: Option<Vec<Component>>,
    pub targets: Option<Vec<Target>>,
    pub profile: Option<Profile>,
}

impl View for ToolchainSpec {
    type V = SpecView;

    open spec fn view(&self) -> SpecView {
        SpecView {
            channel: match self.channel {
                Some(c) => Some(c.0@),
                None => None,
            },
            components: match self.components {
                Some(v) => Some(names_of(v@)),
                None => None,
            },
            targets: match self.targets {
                Some(v) => Some(names_of(v@)),
                None => None,
            },
            profile: match self.profile {
                Some(p) => Some(p.0@),
                None => None,
            },
        }
    }
}

impl ToolchainSpec {
    pub fn channel(&self) -> (r: Option<&Channel>)
        ensures
            match self.channel {
                Some(c) => r == Some(&c),
                None => r is None,
            },
    {
        self.channel.as_ref()
    }

    pub fn components(&self) -> (r: Option<&[Component]>)
        ensures
            match self.components {
                Some(v) => r is Some && r->0@ == v@,
                None => r is None,
            },
    {
        match &self.components {
            Some(v) => Some(v.as_slice()),
            None => None,
        }
    }

    pub fn targets(&self) -> (r: Option<&[Target]>)
        ensures
            match self.targets {
                Some(v) => r is Some && r->0@ == v@,
                None => r is None,
            },
    {
        match &self.targets {
            Some(v) => Some(v.as_slice()),
            None => None,
        }
    }

    pub fn profile(&self) -> (r: Option<&Profile>)
        ensures
            match self.profile {
                Some(p) => r == Some(&p),
                None => r is None,
            },
    {
        self.profile.as_ref()
    }
}

/// A path to a local toolchain.
#[derive(Clone, Debug, PartialEq, Eq)]
pub struct ToolchainPath {
    pub path: String,
}

impl ToolchainPath {
    pub fn path(&self) -> (r: &str)
        ensures
            r@ == self.path@,
    {
        self.path.as_str()
    }
}

/// A toolchain name, such as `stable` or `nightly-2020-07-10`.
#[derive(Clone, Debug, PartialEq, Eq)]
pub struct Channel(pub String);

/// An add-on component of a toolchain.
#[derive(Clone, Debug, PartialEq, Eq)]
pub struct Component(pub String);

/// A platform target of a toolchain.
#[derive(Clone, Debug, PartialEq, Eq)]
pub struct Target(pub String);

/// An installation profile.
#[derive(Clone, Debug, PartialEq, Eq)]
pub struct Profile(pub String);

impl Channel {
    pub fn name(&self) -> (r: &str)
        ensures
            r@ == self.0@,
    {
        self.0.as_str()
    }
}

impl Component {
    pub fn name(&self) -> (r: &str)
        ensures
            r@ == self.0@,
    {
        self.0.as_str()
    }
}

impl Named for Component {
    open spec fn name_view(&self) -> Seq<char> {
        self.0@
    }

    fn from_name(name: String) -> (r: Component) {
        Component(name)
    }
}

impl Target {
    pub fn name(&self) -> (r: &str)
        ensures
            r@ == self.0@,
    {
        self.0.as_str()
    }
}

impl Named for Target {
    open spec fn name_view(&self) -> Seq<char> {
        self.0@
    }

    fn from_name(name: String) -> (r: Target) {
        Target(name)
    }
}

impl Profile {
    pub fn name(&self) -> (r: &str)
        ensures
            r@ == self.0@,
    {
        self.0.as_str()
    }
}

} // verus!
