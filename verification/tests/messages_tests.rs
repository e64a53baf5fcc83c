use cargo_wgsl::decimal::usize_to_string;
use cargo_wgsl::errors::WgslError;
use cargo_wgsl::messages::OutputMessage;

#[test]
fn decimal_zero() {
    assert_eq!(usize_to_string(0), "0");
}

#[test]
fn decimal_single_digit() {
    assert_eq!(usize_to_string(7), "7");
}

#[test]
fn decimal_round_number() {
    assert_eq!(usize_to_string(10), "10");
}

#[test]
fn decimal_many_digits() {
    assert_eq!(usize_to_string(907), "907");
    assert_eq!(usize_to_string(123456), "123456");
}

#[test]
fn success_line_contains_path() {
    let m = OutputMessage::success("a.wgsl");
    assert!(!m.is_err);
    assert_eq!(m.text, "✅ Success a.wgsl");
}

#[test]
fn parse_error_line_has_location_then_message() {
    let e = WgslError::Parse { error: String::from("expected expression"), line: 3, pos: 7 };
    let m = OutputMessage::error("a.wgsl", e);
    assert!(m.is_err);
    assert_eq!(m.text, "--> a.wgsl:3:7\nerror: expected expression");
}

#[test]
fn validate_error_line_has_detail_and_diagnostic() {
    let e = WgslError::Validate {
        src: String::from("source text"),
        error: String::from("EntryPoint"),
        emitted: String::from("diagnostic"),
    };
    let m = OutputMessage::error("a.wgsl", e);
    assert!(m.is_err);
    assert_eq!(m.text, "❌ a.wgsl \nEntryPoint diagnostic");
}

#[test]
fn io_error_line_has_detail() {
    let e = WgslError::Io { message: String::from("permission denied") };
    let m = OutputMessage::error("a.wgsl", e);
    assert!(m.is_err);
    assert_eq!(m.text, "❌ a.wgsl \npermission denied");
}

#[test]
fn traversal_error_line_has_detail() {
    let e = WgslError::Traversal { message: String::from("walk failed") };
    let m = OutputMessage::error("dir", e);
    assert!(m.is_err);
    assert_eq!(m.text, "❌ dir \nwalk failed");
}

#[test]
fn other_error_line_has_detail() {
    let e = WgslError::Other { message: String::from("unclassified") };
    let m = OutputMessage::error("a.wgsl", e);
    assert!(m.is_err);
    assert_eq!(m.text, "❌ a.wgsl \nunclassified");
}

#[test]
fn from_parse_err_keeps_reported_location() {
    let e = WgslError::from_parse_err(String::from("bad token"), Some((2, 5)));
    match e {
        WgslError::Parse { error, line, pos } => {
            assert_eq!(error, "bad token");
            assert_eq!(line, 2);
            assert_eq!(pos, 5);
        },
        _ => panic!("expected a parse error"),
    }
}

#[test]
fn from_parse_err_defaults_to_zero_without_location() {
    let e = WgslError::from_parse_err(String::from("bad token"), None);
    match e {
        WgslError::Parse { error, line, pos } => {
            assert_eq!(error, "bad token");
            assert_eq!(line, 0);
            assert_eq!(pos, 0);
        },
        _ => panic!("expected a parse error"),
    }
}
