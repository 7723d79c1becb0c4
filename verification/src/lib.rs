//! Documentation generator for hierarchical configuration schemas.
//!
//! A configuration definition is described by a tree of [`FieldInfo`]
//! descriptors collected into a [`ConfigSchema`]; the schema is rendered
//! into a markdown document with one header and one fenced example block
//! per nested section.

mod format;
mod naming;
mod render;
mod schema;
mod text;

pub use format::ConfigFormat;
pub use format::DocsError;
pub use format::MarkdownOptions;
pub use naming::apply_rename_all;
pub use naming::capitalize;
pub use naming::lemma_camel_round_trip;
pub use naming::resolve_field_name;
pub use naming::to_camel_case;
pub use naming::to_kebab_case;
pub use naming::to_pascal_case;
pub use naming::to_upper_snake_case;
pub use render::generate_config_docs_with_options;
pub use render::generate_markdown;
pub use render::lemma_default_passthrough;
pub use render::lemma_leaf_suppression;
pub use render::lemma_order_preservation;
pub use render::write_field_docs;
pub use schema::is_primitive_type_name;
pub use schema::join_doc_lines;
pub use schema::ConfigDocsStruct;
pub use schema::ConfigSchema;
pub use schema::ConfigSchemaBuilder;
pub use schema::FieldInfo;
