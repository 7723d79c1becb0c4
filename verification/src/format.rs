//! Format strategy: per-format file extension, example-block fences, and
//! scalar stringification, plus the error raised for unregistered formats.

use vstd::prelude::*;
use vstd::string::StringExecFns;

verus! {

/// The serialization format to display examples in.
///
/// Only `Toml` is currently registered; the other tags are reserved and
/// every operation on them fails with [`DocsError::UnsupportedFormat`]
/// rather than silently degrading.
#[derive(Debug, Clone, Copy, PartialEq, Eq, Structural)]
pub enum ConfigFormat {
    Toml,
    Json,
    Yaml,
}

/// Errors raised by the documentation generator.
#[derive(Debug, Clone, Copy, PartialEq, Eq, Structural)]
pub enum DocsError {
    /// The named format tag has no registered format strategy.
    UnsupportedFormat(ConfigFormat),
}

/// Options to customize the structure of the output markdown document.
#[derive(Debug, Clone)]
pub struct MarkdownOptions {
    /// Prepended as a top-level header when present.
    pub title: Option<String>,
    /// Selects the format strategy used for the example blocks.
    pub format: ConfigFormat,
}

impl MarkdownOptions {
    /// Options for the given format, with no title.
    pub fn new(format: ConfigFormat) -> (r: Self)
        ensures
            r.title is None,
            r.format == format,
    {
        MarkdownOptions { title: None, format }
    }

    /// Set a custom title to use in the generated document.
    pub fn title(self, title: Option<String>) -> (r: Self)
        ensures
            r.title == title,
            r.format == self.format,
    {
        MarkdownOptions { title, format: self.format }
    }
}

/// Whether a format tag has a registered format strategy.
pub open spec fn spec_format_supported(format: ConfigFormat) -> bool {
    format is Toml
}

/// The decimal digit character for a value below ten.
pub open spec fn spec_digit_char(d: int) -> char
    recommends
        0 <= d < 10,
{
    (('0' as int) + d) as char
}

/// The decimal representation of a non-negative integer, most significant
/// digit first.
pub open spec fn spec_decimal_nat(n: int) -> Seq<char>
    recommends
        n >= 0,
    decreases n,
{
    if n < 10 {
        seq![spec_digit_char(n)]
    } else {
        spec_decimal_nat(n / 10) + seq![spec_digit_char(n % 10)]
    }
}

/// The plain decimal representation of a signed integer: a minus sign for
/// negative values, then the digits, no separators or padding.
pub open spec fn spec_decimal_int(n: int) -> Seq<char> {
    if n < 0 {
        seq!['-'] + spec_decimal_nat(-n)
    } else {
        spec_decimal_nat(n)
    }
}

/// The TOML literal text of a string value: the input quoted and escaped as
/// a TOML string. Named only; its exact shape is decided by the TOML
/// serializer.
pub uninterp spec fn toml_str_of(s: Seq<char>) -> Seq<char>;

/// Relies on toml's `ValueSerializer`: a boolean value serializes as the
/// bare word `true` or `false`.
#[verifier::external_body]
fn toml_bool_text(value: bool) -> (r: String)
    ensures
        value ==> r@ == "true"@,
        !value ==> r@ == "false"@,
{
    let mut out = String::new();
    serde::Serialize::serialize(&value, toml::ser::ValueSerializer::new(&mut out)).unwrap();
    out
}

/// Relies on toml's `ValueSerializer`: an integer value serializes as its
/// plain decimal representation.
#[verifier::external_body]
fn toml_integer_text(value: i64) -> (r: String)
    ensures
        r@ == spec_decimal_int(value as int),
{
    let mut out = String::new();
    serde::Serialize::serialize(&value, toml::ser::ValueSerializer::new(&mut out)).unwrap();
    out
}

/// Relies on toml's `ValueSerializer`: a string value serializes as a quoted
/// TOML string whose text depends on the input characters alone.
#[verifier::external_body]
fn toml_string_text(value: &str) -> (r: String)
    ensures
        r@ == toml_str_of(value@),
{
    let mut out = String::new();
    serde::Serialize::serialize(&value, toml::ser::ValueSerializer::new(&mut out)).unwrap();
    out
}

impl ConfigFormat {
    /// The file extension for this format, used for output file naming.
    pub fn extension(&self) -> (r: Result<&'static str, DocsError>)
        ensures
            *self is Toml ==> (r matches Ok(e) && e@ == "toml"@),
            !(*self is Toml) ==> (r matches Err(e) && e == DocsError::UnsupportedFormat(*self)),
    {
        match self {
            ConfigFormat::Toml => Ok("toml"),
            _ => Err(DocsError::UnsupportedFormat(*self)),
        }
    }

    /// Stringify one boolean scalar in this format's grammar.
    pub fn format_bool(&self, value: bool) -> (r: Result<String, DocsError>)
        ensures
            *self is Toml && value ==> (r matches Ok(s) && s@ == "true"@),
            *self is Toml && !value ==> (r matches Ok(s) && s@ == "false"@),
            !(*self is Toml) ==> (r matches Err(e) && e == DocsError::UnsupportedFormat(*self)),
    {
        match self {
            ConfigFormat::Toml => Ok(toml_bool_text(value)),
            _ => Err(DocsError::UnsupportedFormat(*self)),
        }
    }

    /// Stringify one integer scalar in this format's grammar.
    pub fn format_integer(&self, value: i64) -> (r: Result<String, DocsError>)
        ensures
            *self is Toml ==> (r matches Ok(s) && s@ == spec_decimal_int(value as int)),
            !(*self is Toml) ==> (r matches Err(e) && e == DocsError::UnsupportedFormat(*self)),
    {
        match self {
            ConfigFormat::Toml => Ok(toml_integer_text(value)),
            _ => Err(DocsError::UnsupportedFormat(*self)),
        }
    }

    /// Stringify one string scalar in this format's grammar (quoted and
    /// escaped).
    pub fn format_value(&self, value: &str) -> (r: Result<String, DocsError>)
        ensures
            *self is Toml ==> (r matches Ok(s) && s@ == toml_str_of(value@)),
            !(*self is Toml) ==> (r matches Err(e) && e == DocsError::UnsupportedFormat(*self)),
    {
        match self {
            ConfigFormat::Toml => Ok(toml_string_text(value)),
            _ => Err(DocsError::UnsupportedFormat(*self)),
        }
    }
}

impl DocsError {
    /// A human-readable description of the error, naming the offending
    /// format tag.
    pub fn message(&self) -> (r: String)
        ensures
            *self == DocsError::UnsupportedFormat(ConfigFormat::Toml) ==> r@ == "unsupported config format: toml"@,
            *self == DocsError::UnsupportedFormat(ConfigFormat::Json) ==> r@ == "unsupported config format: json"@,
            *self == DocsError::UnsupportedFormat(ConfigFormat::Yaml) ==> r@ == "unsupported config format: yaml"@,
    {
        match self {
            DocsError::UnsupportedFormat(ConfigFormat::Toml) => String::from_str(
                "unsupported config format: toml",
            ),
            DocsError::UnsupportedFormat(ConfigFormat::Json) => String::from_str(
                "unsupported config format: json",
            ),
            DocsError::UnsupportedFormat(ConfigFormat::Yaml) => String::from_str(
                "unsupported config format: yaml",
            ),
        }
    }
}

} // verus!
