use py_numbers::invocation::{
    check_script_path, failure_message, process_outcome, ProcessReport, FAILURE_PREFIX,
    REJECTION_PREFIX,
};
use py_numbers::path_rule::{is_valid_script_path, SCRIPT_PATH_PATTERN};

fn exited(success: bool, stdout: &[u8], stderr: &[u8]) -> ProcessReport {
    ProcessReport::Exited { success, stdout: stdout.to_vec(), stderr: stderr.to_vec() }
}

#[test]
fn accepts_script_under_directory() {
    assert!(is_valid_script_path("/scripts/foo__print_numbers.py"));
    assert_eq!(
        check_script_path("/scripts/foo__print_numbers.py".to_string()),
        Ok("/scripts/foo__print_numbers.py".to_string())
    );
}

#[test]
fn rejects_bare_file_name() {
    assert!(!is_valid_script_path("__print_numbers.py"));
    assert_eq!(
        check_script_path("__print_numbers.py".to_string()),
        Err("Provided Python script path does not match expected filename! Got: __print_numbers.py"
            .to_string())
    );
}

#[test]
fn rejects_other_script() {
    assert_eq!(
        check_script_path("/scripts/other.py".to_string()),
        Err("Provided Python script path does not match expected filename! Got: /scripts/other.py"
            .to_string())
    );
}

#[test]
fn rejects_empty_path() {
    assert!(!is_valid_script_path(""));
    assert_eq!(
        check_script_path(String::new()),
        Err(REJECTION_PREFIX.to_string())
    );
}

#[test]
fn rejects_whitespace_before_file_name() {
    assert!(!is_valid_script_path("a __print_numbers.py"));
    assert!(!is_valid_script_path("\t__print_numbers.py"));
    assert!(!is_valid_script_path("a\u{3000}__print_numbers.py"));
}

#[test]
fn accepts_one_character_prefix() {
    assert!(is_valid_script_path("x__print_numbers.py"));
}

#[test]
fn rejects_whitespace_anywhere_before_file_name() {
    assert!(!is_valid_script_path("dir with space/x__print_numbers.py"));
    assert!(!is_valid_script_path(" x__print_numbers.py"));
    assert_eq!(
        check_script_path("a b__print_numbers.py".to_string()),
        Err("Provided Python script path does not match expected filename! Got: a b__print_numbers.py"
            .to_string())
    );
}

#[test]
fn dot_is_literal() {
    assert!(!is_valid_script_path("/s/a__print_numbersXpy"));
}

#[test]
fn file_name_must_end_the_path() {
    assert!(!is_valid_script_path("/s/a__print_numbers.py "));
    assert!(!is_valid_script_path("/s/a__print_numbers.py\n"));
    assert!(!is_valid_script_path("/s/a__print_numbers.pyc"));
}

#[test]
fn rejection_holds_path_verbatim() {
    let path = "bad\u{1b}[31m path.py";
    let err = check_script_path(path.to_string()).unwrap_err();
    assert!(err.contains(path));
    assert!(err.starts_with(REJECTION_PREFIX));
}

#[test]
fn pattern_text() {
    assert_eq!(SCRIPT_PATH_PATTERN, r"^\S+__print_numbers[.]py$");
}

#[test]
fn success_returns_stdout() {
    let r = process_outcome(&exited(true, b"1\n2\n3\n", b"ignored"));
    assert_eq!(r, Ok("1\n2\n3\n".to_string()));
}

#[test]
fn success_with_empty_stdout() {
    assert_eq!(process_outcome(&exited(true, b"", b"")), Ok(String::new()));
}

#[test]
fn success_round_trips_utf8() {
    let text = "zählen: 1 2 3 ✓";
    let r = process_outcome(&exited(true, text.as_bytes(), b""));
    assert_eq!(r, Ok(text.to_string()));
}

#[test]
fn failing_exit_returns_prefixed_stderr() {
    let r = process_outcome(&exited(false, b"partial", b"Traceback: boom"));
    assert_eq!(r, Err("Error: Traceback: boom".to_string()));
}

#[test]
fn failing_exit_with_empty_stderr() {
    assert_eq!(process_outcome(&exited(false, b"", b"")), Err(FAILURE_PREFIX.to_string()));
}

#[test]
fn invalid_utf8_is_replaced() {
    let r = process_outcome(&exited(true, b"a\xffb", b""));
    assert_eq!(r, Ok("a\u{fffd}b".to_string()));
    let e = process_outcome(&exited(false, b"", b"\xc3"));
    assert_eq!(e, Err("Error: \u{fffd}".to_string()));
}

#[test]
fn launch_failure_is_message_alone() {
    let msg = "No such file or directory (os error 2)";
    let r = process_outcome(&ProcessReport::LaunchFailed(msg.to_string()));
    assert_eq!(r, Err(msg.to_string()));
    let e = r.unwrap_err();
    assert!(!e.is_empty());
    assert!(!e.starts_with("Error: "));
}

#[test]
fn failure_message_prefixes() {
    assert_eq!(failure_message("oops"), "Error: oops".to_string());
}

#[test]
fn same_inputs_same_outcome() {
    let a = check_script_path("/x/y__print_numbers.py".to_string());
    let b = check_script_path("/x/y__print_numbers.py".to_string());
    assert_eq!(a, b);
    let r1 = process_outcome(&exited(true, b"42", b""));
    let r2 = process_outcome(&exited(true, b"42", b""));
    assert_eq!(r1, r2);
    let bad1 = check_script_path("/x/other.py".to_string());
    let bad2 = check_script_path("/x/other.py".to_string());
    assert_eq!(bad1, bad2);
}
