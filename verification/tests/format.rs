use serde_config_docs::ConfigFormat;
use serde_config_docs::DocsError;

#[test]
fn extension_toml() {
    assert_eq!(ConfigFormat::Toml.extension(), Ok("toml"));
}

#[test]
fn extension_unregistered_formats_fail() {
    assert_eq!(
        ConfigFormat::Json.extension(),
        Err(DocsError::UnsupportedFormat(ConfigFormat::Json))
    );
    assert_eq!(
        ConfigFormat::Yaml.extension(),
        Err(DocsError::UnsupportedFormat(ConfigFormat::Yaml))
    );
}

#[test]
fn format_bool_is_bare_lowercase() {
    assert_eq!(ConfigFormat::Toml.format_bool(false).unwrap(), "false");
    assert_eq!(ConfigFormat::Toml.format_bool(true).unwrap(), "true");
}

#[test]
fn format_integer_is_plain_decimal() {
    assert_eq!(ConfigFormat::Toml.format_integer(0).unwrap(), "0");
    assert_eq!(ConfigFormat::Toml.format_integer(42).unwrap(), "42");
    assert_eq!(ConfigFormat::Toml.format_integer(-7).unwrap(), "-7");
    assert_eq!(
        ConfigFormat::Toml.format_integer(i64::MAX).unwrap(),
        "9223372036854775807"
    );
    assert_eq!(
        ConfigFormat::Toml.format_integer(i64::MIN).unwrap(),
        "-9223372036854775808"
    );
}

#[test]
fn format_string_is_quoted() {
    // The TOML scalar formatter quotes strings; the input never comes back
    // unchanged.
    assert_eq!(ConfigFormat::Toml.format_value("hello").unwrap(), "\"hello\"");
    assert_eq!(ConfigFormat::Toml.format_value("").unwrap(), "\"\"");
}

#[test]
fn format_scalars_fail_on_unregistered_format() {
    assert_eq!(
        ConfigFormat::Json.format_bool(true),
        Err(DocsError::UnsupportedFormat(ConfigFormat::Json))
    );
    assert_eq!(
        ConfigFormat::Yaml.format_integer(1),
        Err(DocsError::UnsupportedFormat(ConfigFormat::Yaml))
    );
    assert_eq!(
        ConfigFormat::Json.format_value("x"),
        Err(DocsError::UnsupportedFormat(ConfigFormat::Json))
    );
}

#[test]
fn error_message_names_the_tag() {
    assert_eq!(
        DocsError::UnsupportedFormat(ConfigFormat::Json).message(),
        "unsupported config format: json"
    );
    assert_eq!(
        DocsError::UnsupportedFormat(ConfigFormat::Yaml).message(),
        "unsupported config format: yaml"
    );
}
