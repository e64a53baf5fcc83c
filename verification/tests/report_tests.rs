use cargo_wgsl::messages::OutputMessage;
use cargo_wgsl::report::exit_code;
use cargo_wgsl::report::sort_messages;

fn msg(is_err: bool, text: &str) -> OutputMessage {
    OutputMessage { is_err, text: String::from(text) }
}

fn texts(messages: &[OutputMessage]) -> Vec<String> {
    messages.iter().map(|m| m.text.clone()).collect()
}

#[test]
fn partition_keeps_every_outcome() {
    let input = vec![
        msg(false, "s1"),
        msg(true, "f1"),
        msg(false, "s2"),
        msg(true, "f2"),
        msg(true, "f3"),
    ];
    let sorted = sort_messages(input);
    assert_eq!(sorted.len(), 5);
}

#[test]
fn failures_come_after_successes_in_original_order() {
    let input = vec![
        msg(true, "f1"),
        msg(false, "s1"),
        msg(true, "f2"),
        msg(false, "s2"),
    ];
    let sorted = sort_messages(input);
    assert_eq!(texts(&sorted), vec!["s1", "s2", "f1", "f2"]);
    let mut seen_failure = false;
    for m in &sorted {
        if m.is_err {
            seen_failure = true;
        } else {
            assert!(!seen_failure, "a failure line preceded a success line");
        }
    }
}

#[test]
fn partition_is_idempotent() {
    let build = || {
        vec![
            msg(true, "f1"),
            msg(false, "s1"),
            msg(true, "f2"),
            msg(false, "s2"),
        ]
    };
    let once = sort_messages(build());
    let twice = sort_messages(sort_messages(build()));
    assert_eq!(texts(&once), texts(&twice));
}

#[test]
fn exit_code_zero_without_failures() {
    let all_good = vec![msg(false, "s1"), msg(false, "s2")];
    assert_eq!(exit_code(&all_good), 0);
}

#[test]
fn exit_code_zero_for_empty_run() {
    let empty: Vec<OutputMessage> = Vec::new();
    assert_eq!(exit_code(&empty), 0);
}

#[test]
fn exit_code_one_with_single_failure() {
    let one_bad = vec![msg(false, "s1"), msg(true, "f1"), msg(false, "s2")];
    assert_eq!(exit_code(&one_bad), 1);
}
