use model_server::headers::{
    find_header, max_dimensions, parse_u32, select_engine, str_eq_ignore_ascii_case, Engine,
};

fn hdrs(pairs: &[(&str, &str)]) -> Vec<(String, String)> {
    pairs.iter().map(|(n, v)| (n.to_string(), v.to_string())).collect()
}

#[test]
fn compare_ignores_ascii_case() {
    assert!(str_eq_ignore_ascii_case("X-Inference-Type", "x-inference-type"));
    assert!(str_eq_ignore_ascii_case("CONTENT-type", "content-TYPE"));
    assert!(str_eq_ignore_ascii_case("", ""));
    assert!(!str_eq_ignore_ascii_case("abc", "abd"));
    assert!(!str_eq_ignore_ascii_case("abc", "ab"));
    assert!(!str_eq_ignore_ascii_case("a_c", "a-c"));
}

#[test]
fn parse_u32_accepts_plain_decimals() {
    assert_eq!(parse_u32("123"), Some(123));
    assert_eq!(parse_u32("0"), Some(0));
    assert_eq!(parse_u32("+7"), Some(7));
    assert_eq!(parse_u32("00012"), Some(12));
    assert_eq!(parse_u32("4294967295"), Some(u32::MAX));
}

#[test]
fn parse_u32_rejects_everything_else() {
    assert_eq!(parse_u32(""), None);
    assert_eq!(parse_u32("+"), None);
    assert_eq!(parse_u32("12a"), None);
    assert_eq!(parse_u32(" 12"), None);
    assert_eq!(parse_u32("12 "), None);
    assert_eq!(parse_u32("-1"), None);
    assert_eq!(parse_u32("4294967296"), None);
    assert_eq!(parse_u32("99999999999999999999"), None);
}

#[test]
fn header_lookup_ignores_case_and_first_match_wins() {
    let headers = hdrs(&[("X-Max-Width", "100"), ("x-max-width", "200")]);
    assert_eq!(find_header(&headers, "x-MAX-widtH"), Some(&"100".to_string()));
    assert_eq!(find_header(&headers, "X-Max-Height"), None);
}

#[test]
fn layout_header_selects_layout_engine() {
    assert_eq!(select_engine(&hdrs(&[("X-Inference-Type", "layout")])), Engine::Layout);
    assert_eq!(select_engine(&hdrs(&[("x-inference-type", "layout")])), Engine::Layout);
}

#[test]
fn anything_else_selects_motion_engine() {
    assert_eq!(select_engine(&hdrs(&[])), Engine::Motion);
    assert_eq!(select_engine(&hdrs(&[("X-Inference-Type", "motion")])), Engine::Motion);
    // The header value is matched exactly: only "layout" selects layout.
    assert_eq!(select_engine(&hdrs(&[("X-Inference-Type", "Layout")])), Engine::Motion);
    assert_eq!(select_engine(&hdrs(&[("Content-Type", "layout")])), Engine::Motion);
}

#[test]
fn bounding_box_defaults_to_full_hd() {
    assert_eq!(max_dimensions(&hdrs(&[])), (1920, 1080));
    assert_eq!(
        max_dimensions(&hdrs(&[("X-Max-Width", "800"), ("X-Max-Height", "600")])),
        (800, 600)
    );
    assert_eq!(max_dimensions(&hdrs(&[("X-Max-Width", "800")])), (800, 1080));
    assert_eq!(
        max_dimensions(&hdrs(&[("X-Max-Width", "abc"), ("X-Max-Height", "600")])),
        (1920, 600)
    );
}
