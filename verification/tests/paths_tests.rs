use cargo_wgsl::paths::display_path;
use cargo_wgsl::paths::is_candidate;

#[test]
fn candidate_accepts_wgsl_file() {
    assert!(is_candidate("/a/b/shader.wgsl", false));
}

#[test]
fn candidate_accepts_bare_name() {
    assert!(is_candidate("shader.wgsl", false));
}

#[test]
fn candidate_rejects_txt() {
    assert!(!is_candidate("/a/b/readme.txt", false));
}

#[test]
fn candidate_rejects_directory() {
    assert!(!is_candidate("/a/b/shader.wgsl", true));
}

#[test]
fn candidate_is_case_sensitive() {
    assert!(!is_candidate("/a/b/SHADER.WGSL", false));
    assert!(!is_candidate("/a/b/shader.Wgsl", false));
}

#[test]
fn candidate_rejects_hidden_file_without_extension() {
    assert!(!is_candidate("/a/.wgsl", false));
    assert!(!is_candidate(".wgsl", false));
}

#[test]
fn candidate_rejects_dot_only_in_directory() {
    assert!(!is_candidate("/a.wgsl/file", false));
}

#[test]
fn candidate_rejects_trailing_dot() {
    assert!(!is_candidate("/a/shader.", false));
    assert!(!is_candidate("/a/shader", false));
}

#[test]
fn candidate_accepts_double_extension() {
    assert!(is_candidate("/a/shader.frag.wgsl", false));
}

#[test]
fn display_strips_root_prefix() {
    assert_eq!(display_path("/root/x", "/root/x/a.wgsl"), "a.wgsl");
}

#[test]
fn display_strips_root_prefix_nested() {
    assert_eq!(display_path("/r", "/r/sub/a.wgsl"), "sub/a.wgsl");
}

#[test]
fn display_keeps_path_outside_root() {
    assert_eq!(display_path("/root/x", "/etc/a.wgsl"), "/etc/a.wgsl");
}

#[test]
fn display_keeps_sibling_with_common_prefix() {
    assert_eq!(display_path("/root/x", "/root/xy/a.wgsl"), "/root/xy/a.wgsl");
}

#[test]
fn display_handles_slash_root() {
    assert_eq!(display_path("/", "/a.wgsl"), "a.wgsl");
}

#[test]
fn display_keeps_root_itself() {
    assert_eq!(display_path("/root/x", "/root/x"), "/root/x");
}
