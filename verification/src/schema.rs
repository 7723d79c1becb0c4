//! The schema model: field descriptors, the schema tree, and its builder,
//! with the helpers an extraction adapter needs to classify fields and to
//! assemble their documentation text.

use vstd::prelude::*;
use vstd::string::StringExecFns;

use crate::text::str_eq;

verus! {

/// Information about a configuration field.
///
/// A descriptor is either a leaf (`is_nested` is false, `nested_fields`
/// empty, `default_value` and `field_type` meaningful) or a section
/// (`is_nested` is true and `nested_fields` holds its children, in
/// declaration order).
#[derive(Debug)]
pub struct FieldInfo {
    /// The name of the field as it appears in the serialized format.
    pub name: String,
    pub doc_comments: Option<String>,
    pub default_value: Option<String>,
    pub field_type: String,
    pub is_nested: bool,
    pub nested_fields: Vec<FieldInfo>,
}

impl FieldInfo {
    /// Create a new leaf descriptor with no documentation, default or type set.
    pub fn new(name: String) -> (r: Self)
        ensures
            r.name == name,
            r.doc_comments is None,
            r.default_value is None,
            r.field_type@ == Seq::<char>::empty(),
            !r.is_nested,
            r.nested_fields@ == Seq::<FieldInfo>::empty(),
    {
        Self {
            name,
            doc_comments: None,
            default_value: None,
            field_type: String::new(),
            is_nested: false,
            nested_fields: Vec::new(),
        }
    }

    /// Set the documentation comment for this field.
    pub fn doc(self, doc: String) -> (r: Self)
        ensures
            r == (FieldInfo { doc_comments: Some(doc), ..self }),
    {
        let mut s = self;
        s.doc_comments = Some(doc);
        s
    }

    /// Set the default value for this field.
    pub fn default(self, default: Option<String>) -> (r: Self)
        ensures
            r == (FieldInfo { default_value: default, ..self }),
    {
        let mut s = self;
        s.default_value = default;
        s
    }

    /// Set the displayed type of this field.
    pub fn field_type(self, field_type: String) -> (r: Self)
        ensures
            r == (FieldInfo { field_type: field_type, ..self }),
    {
        let mut s = self;
        s.field_type = field_type;
        s
    }

    /// Make this field a nested section with the given child fields.
    pub fn nested(self, nested_fields: Vec<FieldInfo>) -> (r: Self)
        ensures
            r == (FieldInfo { is_nested: true, nested_fields: nested_fields, ..self }),
    {
        let mut s = self;
        s.is_nested = true;
        s.nested_fields = nested_fields;
        s
    }
}

/// Builder for a config schema; fields are appended in call order, which
/// becomes render order.
#[derive(Debug)]
pub struct ConfigSchemaBuilder {
    fields: Vec<FieldInfo>,
}

impl View for ConfigSchemaBuilder {
    type V = Seq<FieldInfo>;

    closed spec fn view(&self) -> Seq<FieldInfo> {
        self.fields@
    }
}

impl ConfigSchemaBuilder {
    /// Create a new builder with an empty field sequence.
    pub fn new() -> (r: Self)
        ensures
            r@ == Seq::<FieldInfo>::empty(),
    {
        Self { fields: Vec::new() }
    }

    /// Append a field to the end of the schema.
    ///
    /// No name-collision checking is performed; duplicate names are
    /// propagated as-is and appear twice in the rendered output.
    pub fn add_field(self, field: FieldInfo) -> (r: Self)
        ensures
            r@ == self@.push(field),
    {
        let mut s = self;
        s.fields.push(field);
        s
    }

    /// Finalize the schema; the builder is consumed.
    pub fn build(self) -> (r: ConfigSchema)
        ensures
            r.fields@ == self@,
    {
        ConfigSchema { fields: self.fields }
    }
}

impl Default for ConfigSchemaBuilder {
    fn default() -> (r: Self)
        ensures
            r@ == Seq::<FieldInfo>::empty(),
    {
        Self { fields: Vec::new() }
    }
}

/// A schema describing one configuration structure: its top-level fields,
/// in declaration order.
#[derive(Debug)]
pub struct ConfigSchema {
    pub fields: Vec<FieldInfo>,
}

impl ConfigSchema {
    /// Create a new builder for a config schema.
    pub fn builder() -> (r: ConfigSchemaBuilder)
        ensures
            r@ == Seq::<FieldInfo>::empty(),
    {
        ConfigSchemaBuilder::new()
    }
}

/// Trait for configuration-definition types that can describe themselves as
/// a schema. Implementations construct, for each declared field in
/// declaration order, a leaf or section descriptor.
pub trait ConfigDocsStruct {
    /// Produce a schema describing this type and its fields.
    fn schema() -> ConfigSchema;
}

/// Whether a type name denotes a primitive (leaf) value: a boolean,
/// an integer of any width, a floating-point number, a character or a
/// string. Any other name denotes a nested configuration type.
pub open spec fn spec_is_primitive_type_name(s: Seq<char>) -> bool {
    s == "bool"@ || s == "i8"@ || s == "i16"@ || s == "i32"@ || s == "i64"@ || s == "i128"@ || s
        == "isize"@ || s == "u8"@ || s == "u16"@ || s == "u32"@ || s == "u64"@ || s == "u128"@ || s
        == "usize"@ || s == "f32"@ || s == "f64"@ || s == "char"@ || s == "str"@ || s == "String"@
}

/// Classifies a field's declared type name: primitive names make leaf
/// descriptors, any other name makes a section descriptor.
pub fn is_primitive_type_name(name: &str) -> (r: bool)
    ensures
        r == spec_is_primitive_type_name(name@),
{
    str_eq(name, "bool") || str_eq(name, "i8") || str_eq(name, "i16") || str_eq(name, "i32")
        || str_eq(name, "i64") || str_eq(name, "i128") || str_eq(name, "isize") || str_eq(
        name,
        "u8",
    ) || str_eq(name, "u16") || str_eq(name, "u32") || str_eq(name, "u64") || str_eq(name, "u128")
        || str_eq(name, "usize") || str_eq(name, "f32") || str_eq(name, "f64") || str_eq(
        name,
        "char",
    ) || str_eq(name, "str") || str_eq(name, "String")
}

/// The lines from index `i` on, each preceded by a newline separator.
pub open spec fn spec_join_rest(lines: Seq<Seq<char>>, i: int) -> Seq<char>
    decreases lines.len() - i,
{
    if i < 0 || i >= lines.len() {
        Seq::<char>::empty()
    } else {
        seq!['\n'] + lines[i] + spec_join_rest(lines, i + 1)
    }
}

/// A sequence of documentation lines joined with single newlines.
pub open spec fn spec_join_lines(lines: Seq<Seq<char>>) -> Seq<char> {
    if lines.len() == 0 {
        Seq::<char>::empty()
    } else {
        lines[0] + spec_join_rest(lines, 1)
    }
}

/// Joins source-comment lines into one newline-separated documentation
/// text, as stored in a descriptor's `doc_comments`.
pub fn join_doc_lines(lines: &Vec<String>) -> (r: String)
    ensures
        r@ == spec_join_lines(lines.deep_view()),
{
    let n = lines.len();
    if n == 0 {
        return String::new();
    }
    let mut r = String::from_str(lines[0].as_str());
    let mut i: usize = 1;
    proof {
        let dv = lines.deep_view();
        assert(dv[0] == lines@[0]@);
        assert(r@ + spec_join_rest(dv, 1) =~= spec_join_lines(dv));
    }
    while i < n
        invariant
            1 <= i <= n,
            n == lines@.len(),
            r@ + spec_join_rest(lines.deep_view(), i as int) == spec_join_lines(
                lines.deep_view(),
            ),
        decreases n - i,
    {
        let ghost dv = lines.deep_view();
        let ghost prev = r@;
        r.push('\n');
        r.append(lines[i].as_str());
        proof {
            assert(dv[i as int] == lines@[i as int]@);
            assert(spec_join_rest(dv, i as int) == seq!['\n'] + dv[i as int] + spec_join_rest(
                dv,
                i as int + 1,
            ));
            assert(r@ + spec_join_rest(dv, i as int + 1) =~= prev + spec_join_rest(dv, i as int));
        }
        i = i + 1;
    }
    proof {
        let dv = lines.deep_view();
        assert(spec_join_rest(dv, n as int) == Seq::<char>::empty());
        assert(r@ =~= r@ + spec_join_rest(dv, n as int));
    }
    r
}

} // verus!
