use imogen::paths::{
    build_canonical_path, build_path_to_preprocessed_file, build_path_to_unprocessed_file,
    build_processing_suffix, strip_extension,
};
use imogen::{FileDescription, ServerConfig};

fn config() -> ServerConfig {
    ServerConfig { uploads_dir: "./uploads".to_string() }
}

#[test]
fn strip_extension_exact_values() {
    assert_eq!(strip_extension("example.png"), "example");
    assert_eq!(strip_extension("a.b.c"), "a.b");
    assert_eq!(strip_extension("noext"), "");
    assert_eq!(strip_extension(".png"), "");
    assert_eq!(strip_extension("a..b"), "a.");
    assert_eq!(strip_extension(""), "");
}

#[test]
fn processing_suffix_is_empty_for_empty_query() {
    assert_eq!(build_processing_suffix(""), "");
    assert_eq!(build_processing_suffix("w=100&h=50"), "?w=100&h=50");
}

#[test]
fn preprocessed_path_concatenates_all_parts() {
    let file_desc = FileDescription { filename: "a".to_string(), extension: "png".to_string() };
    let suffix = build_processing_suffix("w=100");
    let path = build_path_to_preprocessed_file(&file_desc, &suffix, &config());
    assert_eq!(path, "./uploads/a?w=100.png");
}

#[test]
fn equal_requests_build_equal_paths() {
    let build = || {
        let file_desc =
            FileDescription { filename: "a".to_string(), extension: "png".to_string() };
        let suffix = build_processing_suffix("h=3&w=7");
        build_path_to_preprocessed_file(&file_desc, &suffix, &config())
    };
    assert_eq!(build(), build());
}

#[test]
fn query_parameter_order_is_not_canonicalized() {
    let file_desc = FileDescription { filename: "a".to_string(), extension: "png".to_string() };
    let ab = build_path_to_preprocessed_file(
        &file_desc,
        &build_processing_suffix("w=7&h=3"),
        &config(),
    );
    let ba = build_path_to_preprocessed_file(
        &file_desc,
        &build_processing_suffix("h=3&w=7"),
        &config(),
    );
    assert_ne!(ab, ba);
}

#[test]
fn unprocessed_path_has_no_suffix() {
    let file_desc = FileDescription { filename: "a".to_string(), extension: "png".to_string() };
    assert_eq!(build_path_to_unprocessed_file(&file_desc, &config()), "./uploads/a.png");
}

#[test]
fn canonical_path_uses_webp_extension() {
    assert_eq!(build_canonical_path(&"a".to_string(), &config()), "./uploads/a.webp");
}

#[test]
fn queryless_webp_derivative_path_is_the_canonical_path() {
    let file_desc = FileDescription { filename: "a".to_string(), extension: "webp".to_string() };
    let derivative = build_path_to_preprocessed_file(
        &file_desc,
        &build_processing_suffix(""),
        &config(),
    );
    assert_eq!(derivative, build_canonical_path(&"a".to_string(), &config()));
}
