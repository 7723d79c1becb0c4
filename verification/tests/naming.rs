use serde_config_docs::apply_rename_all;
use serde_config_docs::capitalize;
use serde_config_docs::resolve_field_name;
use serde_config_docs::to_camel_case;
use serde_config_docs::to_kebab_case;
use serde_config_docs::to_pascal_case;
use serde_config_docs::to_upper_snake_case;

/// Insert an underscore before each ASCII uppercase letter and lowercase it.
fn snake_back(s: &str) -> String {
    let mut out = String::new();
    for c in s.chars() {
        if c.is_ascii_uppercase() {
            out.push('_');
            out.push(c.to_ascii_lowercase());
        } else {
            out.push(c);
        }
    }
    out
}

#[test]
fn camel_case_basic() {
    assert_eq!(
        to_camel_case("show_warning_on_direct_execution"),
        "showWarningOnDirectExecution"
    );
    assert_eq!(
        to_camel_case("disable_widget_state_duplication_warning"),
        "disableWidgetStateDuplicationWarning"
    );
}

#[test]
fn camel_case_empty() {
    assert_eq!(to_camel_case(""), "");
}

#[test]
fn camel_case_consecutive_underscores() {
    // Only one character is pending capitalization at a time.
    assert_eq!(to_camel_case("a__b"), "aB");
    assert_eq!(to_camel_case("a___b"), "aB");
}

#[test]
fn camel_case_leading_trailing_underscores() {
    assert_eq!(to_camel_case("_abc"), "Abc");
    assert_eq!(to_camel_case("abc_"), "abc");
}

#[test]
fn pascal_case_basic() {
    assert_eq!(to_pascal_case("disable_widget"), "DisableWidget");
    assert_eq!(to_pascal_case("a"), "A");
    assert_eq!(to_pascal_case(""), "");
}

#[test]
fn upper_snake_basic() {
    assert_eq!(to_upper_snake_case("a_b"), "A_B");
    assert_eq!(to_upper_snake_case("show_warning"), "SHOW_WARNING");
    assert_eq!(to_upper_snake_case(""), "");
}

#[test]
fn kebab_basic() {
    assert_eq!(to_kebab_case("a_b_c"), "a-b-c");
    assert_eq!(to_kebab_case("plain"), "plain");
}

#[test]
fn rename_all_styles() {
    let name = "my_field_name";
    assert_eq!(
        apply_rename_all(name, &Some("camelCase".to_string())),
        "myFieldName"
    );
    assert_eq!(
        apply_rename_all(name, &Some("PascalCase".to_string())),
        "MyFieldName"
    );
    assert_eq!(
        apply_rename_all(name, &Some("snake_case".to_string())),
        "my_field_name"
    );
    assert_eq!(
        apply_rename_all(name, &Some("SCREAMING_SNAKE_CASE".to_string())),
        "MY_FIELD_NAME"
    );
    assert_eq!(
        apply_rename_all(name, &Some("kebab-case".to_string())),
        "my-field-name"
    );
}

#[test]
fn rename_all_fails_open() {
    // An unrecognized style tag, or no tag at all, leaves the name as-is.
    assert_eq!(
        apply_rename_all("my_field", &Some("Train-Case".to_string())),
        "my_field"
    );
    assert_eq!(apply_rename_all("my_field", &None), "my_field");
}

#[test]
fn resolve_name_prefers_explicit_rename() {
    assert_eq!(
        resolve_field_name(
            Some("explicitName".to_string()),
            "natural_name",
            &Some("camelCase".to_string())
        ),
        "explicitName"
    );
    assert_eq!(
        resolve_field_name(None, "natural_name", &Some("camelCase".to_string())),
        "naturalName"
    );
    assert_eq!(resolve_field_name(None, "natural_name", &None), "natural_name");
}

#[test]
fn camel_round_trip_concrete() {
    for s in [
        "a",
        "a_b",
        "show_warning_on_direct_execution",
        "disable_widget_state_duplication_warning",
        "x_y_z",
    ] {
        assert_eq!(snake_back(&to_camel_case(s)), s);
    }
}

#[test]
fn capitalize_basic() {
    assert_eq!(capitalize("global"), "Global");
    assert_eq!(capitalize(""), "");
    assert_eq!(capitalize("Already"), "Already");
    assert_eq!(capitalize("9lives"), "9lives");
}
