//! Markdown renderer: walks a schema depth-first, pre-order, and emits one
//! header, optional prose and one fenced example block per nested section.
//!
//! The exact output is pinned down by [`spec_markdown`]; rendering is a pure
//! function of the schema and the options, so two renders of identical
//! arguments produce byte-identical output.

use vstd::prelude::*;
use vstd::string::StrSliceExecFns;
use vstd::string::StringExecFns;

use crate::format::ConfigFormat;
use crate::format::DocsError;
use crate::format::MarkdownOptions;
use crate::format::spec_format_supported;
use crate::naming::capitalize;
use crate::naming::spec_capitalize;
use crate::schema::ConfigDocsStruct;
use crate::schema::ConfigSchema;
use crate::schema::FieldInfo;

verus! {

/// The body of a rendered doc-comment block: the text with every line
/// terminated by a newline, and each line after the first prefixed with
/// `# `; the prefix of the first line is added by [`spec_commented`].
pub open spec fn spec_commented_body(s: Seq<char>) -> Seq<char>
    decreases s.len(),
{
    if s.len() == 0 {
        seq!['\n']
    } else if s[0] == '\n' {
        if s.len() == 1 {
            seq!['\n']
        } else {
            seq!['\n', '#', ' '] + spec_commented_body(s.skip(1))
        }
    } else {
        seq![s[0]] + spec_commented_body(s.skip(1))
    }
}

/// A documentation text rendered as example-block comment lines: each line
/// of the text prefixed with `# ` and terminated by a newline; empty text
/// produces no lines.
pub open spec fn spec_commented(doc: Seq<char>) -> Seq<char> {
    if doc.len() == 0 {
        Seq::<char>::empty()
    } else {
        seq!['#', ' '] + spec_commented_body(doc)
    }
}

/// The comment lines produced by a leaf's documentation, if any.
pub open spec fn spec_doc_lines(c: FieldInfo) -> Seq<char> {
    match c.doc_comments {
        Some(d) => spec_commented(d@),
        None => Seq::<char>::empty(),
    }
}

/// The `# Default: ...` comment line of a leaf, if it has a default.
pub open spec fn spec_default_comment(c: FieldInfo) -> Seq<char> {
    match c.default_value {
        Some(d) => "# Default: "@ + d@ + "\n"@,
        None => Seq::<char>::empty(),
    }
}

/// The example value shown for a leaf: its default string byte-for-byte,
/// or the placeholder token when no default is known.
pub open spec fn spec_example_value(c: FieldInfo) -> Seq<char> {
    match c.default_value {
        Some(d) => d@,
        None => "..."@,
    }
}

/// One leaf's lines inside its parent section's example block: doc comment
/// lines, the default comment, the `name = value` line, and a blank line.
pub open spec fn spec_leaf_entry(c: FieldInfo) -> Seq<char> {
    spec_doc_lines(c) + spec_default_comment(c) + c.name@ + " = "@ + spec_example_value(c)
        + "\n"@ + "\n"@
}

/// The example-block lines of all leaf children of a section, from index
/// `i` on, in declaration order; section children contribute nothing here.
pub open spec fn spec_leaf_entries(cs: Seq<FieldInfo>, i: int) -> Seq<char>
    decreases cs.len() - i,
{
    if i < 0 || i >= cs.len() {
        Seq::<char>::empty()
    } else {
        (if cs[i].is_nested {
            Seq::<char>::empty()
        } else {
            spec_leaf_entry(cs[i])
        }) + spec_leaf_entries(cs, i + 1)
    }
}

/// The rendered documentation of one field: empty for a leaf (leaves are
/// rendered only inside their parent's example block), and for a section
/// the header, the optional prose, the fenced example block with the
/// section-path line and the leaf entries, and then the rendered
/// documentation of every section child, in order.
pub open spec fn spec_field_docs(f: FieldInfo) -> Seq<char>
    decreases f, 1int,
{
    if !f.is_nested {
        Seq::<char>::empty()
    } else {
        "## "@ + spec_capitalize(f.name@) + "\n"@ + (match f.doc_comments {
            Some(d) => "\n"@ + d@ + "\n"@,
            None => Seq::<char>::empty(),
        }) + "```toml\n"@ + "["@ + f.name@ + "]\n"@ + "\n"@ + spec_leaf_entries(
            f.nested_fields@,
            0,
        ) + "```\n"@ + "\n"@ + spec_section_docs(f.nested_fields@, 0)
    }
}

/// The concatenated rendered documentation of the fields from index `i`
/// on; leaf fields contribute nothing.
pub open spec fn spec_section_docs(cs: Seq<FieldInfo>, i: int) -> Seq<char>
    decreases cs, cs.len() - i,
{
    if i < 0 || i >= cs.len() {
        Seq::<char>::empty()
    } else {
        spec_field_docs(cs[i]) + spec_section_docs(cs, i + 1)
    }
}

/// The top-level title header, when a title is set.
pub open spec fn spec_title_block(title: Option<String>) -> Seq<char> {
    match title {
        Some(t) => "# "@ + t@ + "\n"@ + "\n"@,
        None => Seq::<char>::empty(),
    }
}

/// The complete rendered document for a list of top-level fields.
pub open spec fn spec_markdown(fields: Seq<FieldInfo>, title: Option<String>) -> Seq<char> {
    spec_title_block(title) + spec_section_docs(fields, 0)
}

fn push_commented_body(out: &mut String, doc: &str, i: usize)
    requires
        i <= doc@.len(),
    ensures
        final(out)@ == old(out)@ + spec_commented_body(doc@.skip(i as int)),
    decreases doc@.len() - i,
{
    let len = doc.unicode_len();
    if i == len {
        out.push('\n');
        proof {
            assert(doc@.skip(i as int) =~= Seq::<char>::empty());
            assert(out@ =~= old(out)@ + spec_commented_body(doc@.skip(i as int)));
        }
    } else {
        let c = doc.get_char(i);
        proof {
            assert(doc@.skip(i as int)[0] == doc@[i as int]);
            assert(doc@.skip(i as int).skip(1) =~= doc@.skip(i as int + 1));
        }
        if c == '\n' {
            if i + 1 == len {
                out.push('\n');
                proof {
                    assert(out@ =~= old(out)@ + spec_commented_body(doc@.skip(i as int)));
                }
            } else {
                out.push('\n');
                out.push('#');
                out.push(' ');
                push_commented_body(out, doc, i + 1);
                proof {
                    assert(out@ =~= old(out)@ + spec_commented_body(doc@.skip(i as int)));
                }
            }
        } else {
            out.push(c);
            push_commented_body(out, doc, i + 1);
            proof {
                assert(out@ =~= old(out)@ + spec_commented_body(doc@.skip(i as int)));
            }
        }
    }
}

fn push_commented(out: &mut String, doc: &str)
    ensures
        final(out)@ == old(out)@ + spec_commented(doc@),
{
    let len = doc.unicode_len();
    if len == 0 {
        proof {
            assert(out@ =~= old(out)@ + spec_commented(doc@));
        }
    } else {
        out.push('#');
        out.push(' ');
        push_commented_body(out, doc, 0);
        proof {
            assert(doc@.skip(0) =~= doc@);
            assert(out@ =~= old(out)@ + spec_commented(doc@));
        }
    }
}

fn push_leaf_entry(out: &mut String, child: &FieldInfo)
    ensures
        final(out)@ == old(out)@ + spec_leaf_entry(*child),
{
    if let Some(doc) = &child.doc_comments {
        push_commented(out, doc.as_str());
    }
    if let Some(d) = &child.default_value {
        out.append("# Default: ");
        out.append(d.as_str());
        out.append("\n");
    }
    out.append(child.name.as_str());
    out.append(" = ");
    match &child.default_value {
        Some(d) => out.append(d.as_str()),
        None => out.append("..."),
    }
    out.append("\n");
    out.append("\n");
    proof {
        assert(out@ =~= old(out)@ + spec_leaf_entry(*child));
    }
}

/// Write the documentation for one field (and, recursively, its nested
/// sections) to `buffer`. Leaf fields produce no output of their own.
///
/// `depth` and `path` record where in the tree the field stands; the path
/// is threaded through the recursion for future cross-referencing and is
/// not rendered into the output.
#[verifier::rlimit(50)]
pub fn write_field_docs(
    buffer: &mut String,
    field: &FieldInfo,
    format: &ConfigFormat,
    depth: usize,
    path: &str,
) -> (r: Result<(), DocsError>)
    ensures
        spec_format_supported(*format) ==> r is Ok && final(buffer)@ == old(buffer)@
            + spec_field_docs(*field),
        !spec_format_supported(*format) ==> (r matches Err(e) && e
            == DocsError::UnsupportedFormat(*format)) && final(buffer)@ == old(buffer)@,
    decreases *field,
{
    match *format {
        ConfigFormat::Toml => {},
        _ => {
            return Err(DocsError::UnsupportedFormat(*format));
        },
    }
    if !field.is_nested {
        proof {
            assert(buffer@ =~= old(buffer)@ + spec_field_docs(*field));
        }
        return Ok(());
    }
    let section_name = capitalize(field.name.as_str());
    buffer.append("## ");
    buffer.append(section_name.as_str());
    buffer.append("\n");
    if let Some(doc) = &field.doc_comments {
        buffer.append("\n");
        buffer.append(doc.as_str());
        buffer.append("\n");
    }
    buffer.append("```toml\n");
    buffer.append("[");
    buffer.append(field.name.as_str());
    buffer.append("]\n");
    buffer.append("\n");

    let ghost before_leaves = buffer@;
    let n = field.nested_fields.len();
    let mut j: usize = 0;
    while j < n
        invariant
            j <= n,
            n == field.nested_fields@.len(),
            buffer@ + spec_leaf_entries(field.nested_fields@, j as int) == before_leaves
                + spec_leaf_entries(field.nested_fields@, 0),
        decreases n - j,
    {
        let child = &field.nested_fields[j];
        if !child.is_nested {
            let ghost before = buffer@;
            push_leaf_entry(buffer, child);
            proof {
                assert(buffer@ + spec_leaf_entries(field.nested_fields@, j as int + 1) =~= before
                    + spec_leaf_entries(field.nested_fields@, j as int));
            }
        } else {
            proof {
                assert(buffer@ + spec_leaf_entries(field.nested_fields@, j as int + 1) =~= buffer@
                    + spec_leaf_entries(field.nested_fields@, j as int));
            }
        }
        j += 1;
    }
    proof {
        assert(buffer@ =~= before_leaves + spec_leaf_entries(field.nested_fields@, 0));
    }

    buffer.append("```\n");
    buffer.append("\n");

    let current_path: String = if path.is_empty() {
        field.name.clone()
    } else {
        let mut p = String::new();
        p.append(path);
        p.append(".");
        p.append(field.name.as_str());
        p
    };
    let next_depth: usize = if depth < usize::MAX {
        depth + 1
    } else {
        depth
    };

    let ghost before_sections = buffer@;
    let mut k: usize = 0;
    while k < n
        invariant
            k <= n,
            n == field.nested_fields@.len(),
            spec_format_supported(*format),
            buffer@ + spec_section_docs(field.nested_fields@, k as int) == before_sections
                + spec_section_docs(field.nested_fields@, 0),
        decreases n - k,
    {
        let child = &field.nested_fields[k];
        if child.is_nested {
            let ghost before = buffer@;
            let res = write_field_docs(buffer, child, format, next_depth, current_path.as_str());
            proof {
                assert(buffer@ + spec_section_docs(field.nested_fields@, k as int + 1) =~= before
                    + spec_section_docs(field.nested_fields@, k as int));
            }
            match res {
                Ok(u) => u,
                Err(e) => {
                    return Err(e);
                },
            };
        } else {
            proof {
                assert(*child == field.nested_fields@[k as int]);
                assert(spec_field_docs(field.nested_fields@[k as int]) =~= Seq::<char>::empty());
                assert(buffer@ + spec_section_docs(field.nested_fields@, k as int + 1) =~= buffer@
                    + spec_section_docs(field.nested_fields@, k as int));
            }
        }
        k += 1;
    }
    proof {
        assert(buffer@ =~= old(buffer)@ + spec_field_docs(*field));
    }
    Ok(())
}

/// Render markdown documentation for a list of fields.
///
/// With a registered format the result is exactly
/// [`spec_markdown`]`(fields, options.title)`; with a reserved format tag
/// the render aborts with [`DocsError::UnsupportedFormat`] and produces no
/// output at all.
pub fn generate_markdown(fields: &[FieldInfo], options: &MarkdownOptions) -> (r: Result<
    String,
    DocsError,
>)
    ensures
        spec_format_supported(options.format) ==> (r matches Ok(s) && s@ == spec_markdown(
            fields@,
            options.title,
        )),
        !spec_format_supported(options.format) ==> (r matches Err(e) && e
            == DocsError::UnsupportedFormat(options.format)),
{
    match options.format {
        ConfigFormat::Toml => {},
        _ => {
            return Err(DocsError::UnsupportedFormat(options.format));
        },
    }
    let mut buffer = String::new();
    if let Some(title) = &options.title {
        buffer.append("# ");
        buffer.append(title.as_str());
        buffer.append("\n");
        buffer.append("\n");
    }
    proof {
        assert(buffer@ =~= spec_title_block(options.title));
    }
    let ghost start = buffer@;
    let n = fields.len();
    let mut j: usize = 0;
    while j < n
        invariant
            j <= n,
            n == fields@.len(),
            spec_format_supported(options.format),
            buffer@ + spec_section_docs(fields@, j as int) == start + spec_section_docs(
                fields@,
                0,
            ),
        decreases n - j,
    {
        let field = &fields[j];
        let ghost before = buffer@;
        let res = write_field_docs(&mut buffer, field, &options.format, 0, "");
        proof {
            assert(buffer@ + spec_section_docs(fields@, j as int + 1) =~= before
                + spec_section_docs(fields@, j as int));
        }
        match res {
            Ok(u) => u,
            Err(e) => {
                return Err(e);
            },
        };
        j += 1;
    }
    proof {
        assert(buffer@ =~= spec_markdown(fields@, options.title));
    }
    Ok(buffer)
}

impl ConfigSchema {
    /// Generate markdown documentation for this schema with custom options.
    pub fn generate_docs_with_options(&self, options: &MarkdownOptions) -> (r: Result<
        String,
        DocsError,
    >)
        ensures
            spec_format_supported(options.format) ==> (r matches Ok(s) && s@ == spec_markdown(
                self.fields@,
                options.title,
            )),
            !spec_format_supported(options.format) ==> (r matches Err(e) && e
                == DocsError::UnsupportedFormat(options.format)),
    {
        generate_markdown(self.fields.as_slice(), options)
    }
}

/// Generate markdown documentation with custom options for a type that
/// implements [`ConfigDocsStruct`]; the content follows that type's
/// `schema()`.
pub fn generate_config_docs_with_options<T: ConfigDocsStruct>(options: &MarkdownOptions) -> (r:
    Result<String, DocsError>)
    ensures
        spec_format_supported(options.format) ==> r is Ok,
        !spec_format_supported(options.format) ==> (r matches Err(e) && e
            == DocsError::UnsupportedFormat(options.format)),
{
    let schema = T::schema();
    schema.generate_docs_with_options(options)
}

/// The subsequence of section fields, in declaration order.
pub open spec fn spec_section_fields(cs: Seq<FieldInfo>) -> Seq<FieldInfo>
    decreases cs.len(),
{
    if cs.len() == 0 {
        Seq::<FieldInfo>::empty()
    } else if cs[0].is_nested {
        seq![cs[0]] + spec_section_fields(cs.skip(1))
    } else {
        spec_section_fields(cs.skip(1))
    }
}

proof fn lemma_section_docs_shift(cs: Seq<FieldInfo>, i: int)
    requires
        1 <= i,
        1 <= cs.len(),
    ensures
        spec_section_docs(cs, i) == spec_section_docs(cs.skip(1), i - 1),
    decreases cs.len() - i,
{
    if i >= cs.len() {
        assert(spec_section_docs(cs, i) =~= spec_section_docs(cs.skip(1), i - 1));
    } else {
        lemma_section_docs_shift(cs, i + 1);
        assert(cs.skip(1)[i - 1] == cs[i]);
    }
}

/// Order preservation law: the rendered output of a field list is exactly
/// the rendered output of its section fields alone, in their declaration
/// order — leaf fields contribute no header and no block of their own.
pub proof fn lemma_order_preservation(fields: Seq<FieldInfo>)
    ensures
        spec_section_docs(fields, 0) == spec_section_docs(spec_section_fields(fields), 0),
    decreases fields.len(),
{
    if fields.len() == 0 {
        assert(spec_section_docs(fields, 0) =~= spec_section_docs(
            spec_section_fields(fields),
            0,
        ));
    } else {
        let t = fields.skip(1);
        lemma_order_preservation(t);
        lemma_section_docs_shift(fields, 1);
        assert(spec_section_docs(fields, 0) == spec_field_docs(fields[0]) + spec_section_docs(
            fields,
            1,
        ));
        if fields[0].is_nested {
            let sf = spec_section_fields(fields);
            assert(sf == seq![fields[0]] + spec_section_fields(t));
            assert(sf.len() >= 1);
            assert(sf[0] == fields[0]);
            assert(spec_section_docs(sf, 0) == spec_field_docs(sf[0]) + spec_section_docs(sf, 1));
            lemma_section_docs_shift(sf, 1);
            assert(sf.skip(1) =~= spec_section_fields(t));
        } else {
            assert(spec_field_docs(fields[0]) =~= Seq::<char>::empty());
            assert(spec_field_docs(fields[0]) + spec_section_docs(fields, 1) =~= spec_section_docs(
                fields,
                1,
            ));
        }
    }
}

/// Leaf suppression law: a schema whose top level consists only of leaf
/// fields renders to the title block alone — no section headers and no
/// example blocks.
pub proof fn lemma_leaf_suppression(fields: Seq<FieldInfo>, title: Option<String>)
    requires
        forall|i: int| 0 <= i < fields.len() ==> !(#[trigger] fields[i]).is_nested,
    ensures
        spec_markdown(fields, title) == spec_title_block(title),
{
    lemma_sections_empty(fields, 0);
    assert(spec_title_block(title) + spec_section_docs(fields, 0) =~= spec_title_block(title));
}

proof fn lemma_sections_empty(fields: Seq<FieldInfo>, i: int)
    requires
        forall|j: int| 0 <= j < fields.len() ==> !(#[trigger] fields[j]).is_nested,
    ensures
        spec_section_docs(fields, i) == Seq::<char>::empty(),
    decreases fields.len() - i,
{
    if 0 <= i < fields.len() {
        lemma_sections_empty(fields, i + 1);
        assert(spec_field_docs(fields[i]) + spec_section_docs(fields, i + 1) =~= Seq::<
            char,
        >::empty());
    }
}

/// Default passthrough law: a leaf carrying a default string `d` renders,
/// inside its parent's example block, as a `# Default: d` comment line
/// immediately followed by the line `name = d`, the default emitted
/// byte-for-byte both times.
pub proof fn lemma_default_passthrough(c: FieldInfo, d: String)
    requires
        c.default_value == Some(d),
    ensures
        spec_leaf_entry(c) == spec_doc_lines(c) + ("# Default: "@ + d@ + "\n"@) + (c.name@ + " = "@
            + d@ + "\n"@) + "\n"@,
{
    assert(spec_leaf_entry(c) =~= spec_doc_lines(c) + ("# Default: "@ + d@ + "\n"@) + (c.name@
        + " = "@ + d@ + "\n"@) + "\n"@);
}

} // verus!

