use liquid_glass::shader::gl_outcome;
use liquid_glass::setup::{resolve_bool, resolve_string, same_text};
use liquid_glass::shader::{status_ok, FRAG_SRC, VERT_SRC};
use liquid_glass::{dataset_option_keys, element_not_found, needs_tint_fill};

#[test]
fn string_option_falls_back_to_default() {
    assert_eq!(resolve_string(Some("#88ccff".to_string()), "#ffffff"), "#88ccff");
    assert_eq!(resolve_string(None, "#ffffff"), "#ffffff");
    assert_eq!(resolve_string(Some(String::new()), "#ffffff"), "");
}

#[test]
fn flag_option_falls_back_to_default() {
    assert!(resolve_bool(None, true));
    assert!(!resolve_bool(Some(false), true));
    assert!(resolve_bool(Some(true), false));
}

#[test]
fn dataset_keys_map_to_options() {
    assert_eq!(
        dataset_option_keys(),
        vec![
            ("lgIntensity", "intensity"),
            ("lgTint", "tint"),
            ("lgBlur", "blur"),
            ("lgRadius", "radius"),
            ("lgBorder", "border"),
        ]
    );
}

#[test]
fn texts_compare_exactly() {
    assert!(same_text("", ""));
    assert!(same_text("é", "é"));
    assert!(!same_text("abc", "abd"));
    assert!(!same_text("abc", "ab"));
}

#[test]
fn transparent_background_gets_tint_fill() {
    assert!(needs_tint_fill("rgba(0, 0, 0, 0)"));
    assert!(!needs_tint_fill("rgb(255, 255, 255)"));
    assert!(!needs_tint_fill(""));
    assert!(!needs_tint_fill("rgba(0,0,0,0)"));
}

#[test]
fn missing_element_message() {
    assert_eq!(element_not_found(".my-button"), "liquid-glass: элемент \".my-button\" не найден");
}

#[test]
fn only_true_status_succeeds() {
    assert!(status_ok(Some(true)));
    assert!(!status_ok(Some(false)));
    assert!(!status_ok(None));
}

#[test]
fn shaders_are_glsl_es_3() {
    assert!(VERT_SRC.starts_with("#version 300 es\n"));
    assert!(FRAG_SRC.starts_with("#version 300 es\n"));
    for name in ["uResolution", "uRadius", "uBorder", "uTime", "uMouse", "uIntensity", "uTint"] {
        assert!(FRAG_SRC.contains(name));
    }
}

#[test]
fn missing_uniform_is_named() {
    let r = liquid_glass::shader::found_or_missing(None, "uTint");
    assert_eq!(r.err(), Some("no uTint".to_string()));
}

#[test]
fn gl_outcome_decides_from_what_came_back() {
    let none: Option<u8> = None;
    assert_eq!(gl_outcome(none, None, None, "cannot create shader", "unknown shader error"), Err("cannot create shader".to_string()));
    assert_eq!(gl_outcome(Some(7u8), Some(true), None, "cannot create shader", "unknown shader error"), Ok(7));
    assert_eq!(
        gl_outcome(Some(7u8), Some(false), Some("0:3: syntax error".to_string()), "cannot create shader", "unknown shader error"),
        Err("0:3: syntax error".to_string())
    );
    assert_eq!(gl_outcome(Some(7u8), None, None, "cannot create program", "unknown program error"), Err("unknown program error".to_string()));
    assert_eq!(gl_outcome(Some(7u8), Some(false), None, "cannot create program", "unknown program error"), Err("unknown program error".to_string()));
}
