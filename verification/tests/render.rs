use serde_config_docs::generate_config_docs_with_options;
use serde_config_docs::generate_markdown;
use serde_config_docs::write_field_docs;
use serde_config_docs::ConfigDocsStruct;
use serde_config_docs::ConfigFormat;
use serde_config_docs::ConfigSchema;
use serde_config_docs::DocsError;
use serde_config_docs::FieldInfo;
use serde_config_docs::MarkdownOptions;

fn global_section() -> FieldInfo {
    FieldInfo::new("global".to_string())
        .field_type("Global".to_string())
        .nested(vec![
            FieldInfo::new("disableWidgetStateDuplicationWarning".to_string())
                .default(Some("false".to_string()))
                .field_type("bool".to_string()),
            FieldInfo::new("showWarningOnDirectExecution".to_string())
                .default(Some("true".to_string()))
                .field_type("bool".to_string()),
        ])
}

fn toml_options() -> MarkdownOptions {
    MarkdownOptions::new(ConfigFormat::Toml)
}

#[test]
fn scenario_global_section() {
    let schema = ConfigSchema::builder().add_field(global_section()).build();
    let doc = schema.generate_docs_with_options(&toml_options()).unwrap();
    let expected = "## Global\n\
                    ```toml\n\
                    [global]\n\
                    \n\
                    # Default: false\n\
                    disableWidgetStateDuplicationWarning = false\n\
                    \n\
                    # Default: true\n\
                    showWarningOnDirectExecution = true\n\
                    \n\
                    ```\n\
                    \n";
    assert_eq!(doc, expected);
    assert!(doc.contains("## Global"));
    assert!(doc.contains("```toml"));
    assert!(doc.contains("[global]"));
    let default_false = doc.find("# Default: false").unwrap();
    let value_false = doc.find("disableWidgetStateDuplicationWarning = false").unwrap();
    let default_true = doc.find("# Default: true").unwrap();
    let value_true = doc.find("showWarningOnDirectExecution = true").unwrap();
    assert!(default_false < value_false);
    assert!(value_false < default_true);
    assert!(default_true < value_true);
}

#[test]
fn rendering_is_deterministic() {
    let first = ConfigSchema::builder()
        .add_field(global_section())
        .build()
        .generate_docs_with_options(&toml_options())
        .unwrap();
    let second = ConfigSchema::builder()
        .add_field(global_section())
        .build()
        .generate_docs_with_options(&toml_options())
        .unwrap();
    assert_eq!(first, second);
}

#[test]
fn header_order_follows_declaration_order() {
    let fields = vec![
        FieldInfo::new("stray".to_string()).field_type("bool".to_string()),
        FieldInfo::new("alpha".to_string()).nested(vec![FieldInfo::new("x".to_string())]),
        FieldInfo::new("loose".to_string()).field_type("u16".to_string()),
        FieldInfo::new("beta".to_string()).nested(vec![FieldInfo::new("y".to_string())]),
    ];
    let doc = generate_markdown(&fields, &toml_options()).unwrap();
    let alpha = doc.find("## Alpha").unwrap();
    let beta = doc.find("## Beta").unwrap();
    assert!(alpha < beta);
    // Top-level leaves produce no header of their own.
    assert!(!doc.contains("stray"));
    assert!(!doc.contains("loose"));

    // The output equals the render of the section fields alone.
    let sections_only = vec![
        FieldInfo::new("alpha".to_string()).nested(vec![FieldInfo::new("x".to_string())]),
        FieldInfo::new("beta".to_string()).nested(vec![FieldInfo::new("y".to_string())]),
    ];
    assert_eq!(doc, generate_markdown(&sections_only, &toml_options()).unwrap());
}

#[test]
fn leaf_only_schema_renders_nothing_but_title() {
    let fields = vec![
        FieldInfo::new("a".to_string()).field_type("bool".to_string()),
        FieldInfo::new("b".to_string()).default(Some("1".to_string())),
    ];
    let doc = generate_markdown(&fields, &toml_options()).unwrap();
    assert_eq!(doc, "");

    let titled = toml_options().title(Some("My Config".to_string()));
    let doc = generate_markdown(&fields, &titled).unwrap();
    assert_eq!(doc, "# My Config\n\n");
}

#[test]
fn title_is_emitted_once_before_fields() {
    let fields = vec![FieldInfo::new("net".to_string())
        .nested(vec![FieldInfo::new("port".to_string())])];
    let options = toml_options().title(Some("Reference".to_string()));
    let doc = generate_markdown(&fields, &options).unwrap();
    assert!(doc.starts_with("# Reference\n\n## Net\n"));
}

#[test]
fn default_passthrough_line_shape() {
    let fields = vec![FieldInfo::new("engine".to_string()).nested(vec![
        FieldInfo::new("speed".to_string()).default(Some("7.5".to_string())),
    ])];
    let doc = generate_markdown(&fields, &toml_options()).unwrap();
    // The default string is emitted byte-for-byte, in the comment and in
    // the value line, which immediately follows it.
    assert!(doc.contains("# Default: 7.5\nspeed = 7.5\n"));
}

#[test]
fn missing_default_renders_placeholder() {
    let fields = vec![FieldInfo::new("engine".to_string()).nested(vec![
        FieldInfo::new("speed".to_string()).field_type("f64".to_string()),
    ])];
    let doc = generate_markdown(&fields, &toml_options()).unwrap();
    assert!(doc.contains("speed = ...\n"));
    assert!(!doc.contains("# Default:"));
}

#[test]
fn leaf_doc_lines_are_commented() {
    let fields = vec![FieldInfo::new("engine".to_string()).nested(vec![
        FieldInfo::new("speed".to_string())
            .doc("Cruising speed.\nMeasured in knots.".to_string())
            .default(Some("9".to_string())),
    ])];
    let doc = generate_markdown(&fields, &toml_options()).unwrap();
    assert!(doc.contains("# Cruising speed.\n# Measured in knots.\n# Default: 9\nspeed = 9\n"));
}

#[test]
fn section_doc_is_rendered_as_prose() {
    let fields = vec![FieldInfo::new("engine".to_string())
        .doc("Engine settings.".to_string())
        .nested(vec![FieldInfo::new("speed".to_string())])];
    let doc = generate_markdown(&fields, &toml_options()).unwrap();
    assert!(doc.starts_with("## Engine\n\nEngine settings.\n```toml\n[engine]\n"));
}

#[test]
fn nested_sections_recurse_after_parent_block() {
    let inner = FieldInfo::new("limits".to_string()).nested(vec![
        FieldInfo::new("max".to_string()).default(Some("10".to_string())),
    ]);
    let outer = FieldInfo::new("server".to_string())
        .nested(vec![FieldInfo::new("host".to_string()), inner]);
    let fields = vec![outer];
    let doc = generate_markdown(&fields, &toml_options()).unwrap();
    let server = doc.find("## Server").unwrap();
    let server_fence = doc.find("```toml\n[server]").unwrap();
    let limits = doc.find("## Limits").unwrap();
    let limits_fence = doc.find("```toml\n[limits]").unwrap();
    assert!(server < server_fence);
    assert!(server_fence < limits);
    assert!(limits < limits_fence);
    // The nested section is not listed as a leaf line of its parent.
    assert!(!doc.contains("limits = "));
}

#[test]
fn unsupported_format_aborts_without_output() {
    let schema = ConfigSchema::builder().add_field(global_section()).build();
    let res = schema.generate_docs_with_options(&MarkdownOptions::new(ConfigFormat::Json));
    assert_eq!(res, Err(DocsError::UnsupportedFormat(ConfigFormat::Json)));
    let res = generate_markdown(&[], &MarkdownOptions::new(ConfigFormat::Yaml));
    assert_eq!(res, Err(DocsError::UnsupportedFormat(ConfigFormat::Yaml)));
}

#[test]
fn write_field_docs_rejects_unregistered_format_untouched() {
    let mut buffer = String::from("kept");
    let field = global_section();
    let res = write_field_docs(&mut buffer, &field, &ConfigFormat::Json, 0, "");
    assert_eq!(res, Err(DocsError::UnsupportedFormat(ConfigFormat::Json)));
    assert_eq!(buffer, "kept");
}

#[test]
fn write_field_docs_appends_to_buffer() {
    let mut buffer = String::from("before\n");
    let field = global_section();
    write_field_docs(&mut buffer, &field, &ConfigFormat::Toml, 0, "").unwrap();
    assert!(buffer.starts_with("before\n## Global\n"));
}

struct DemoConfig;

impl ConfigDocsStruct for DemoConfig {
    fn schema() -> ConfigSchema {
        ConfigSchema::builder().add_field(global_section()).build()
    }
}

#[test]
fn docs_for_a_config_docs_struct() {
    let doc = generate_config_docs_with_options::<DemoConfig>(&toml_options()).unwrap();
    let direct = DemoConfig::schema()
        .generate_docs_with_options(&toml_options())
        .unwrap();
    assert_eq!(doc, direct);
    assert!(doc.contains("## Global"));

    let res = generate_config_docs_with_options::<DemoConfig>(&MarkdownOptions::new(
        ConfigFormat::Yaml,
    ));
    assert_eq!(res, Err(DocsError::UnsupportedFormat(ConfigFormat::Yaml)));
}
