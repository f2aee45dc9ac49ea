use query_log_replay::error::StringifyError;

#[test]
fn success_is_passed_on() {
    let result: Result<u32, std::num::ParseIntError> = "17".parse::<u32>();
    assert_eq!(result.clone().stringify(), Ok(17));
    assert_eq!(result.context("reading the count"), Ok(17));
}

#[test]
fn error_is_told_in_its_own_words() {
    let result: Result<u32, std::num::ParseIntError> = "x".parse::<u32>();
    assert_eq!(result.stringify(), Err("invalid digit found in string".to_string()));
}

#[test]
fn error_is_told_with_what_failed_before_it() {
    let result: Result<u32, std::num::ParseIntError> = "".parse::<u32>();
    assert_eq!(
        result.context("reading the count"),
        Err("reading the count: cannot parse integer from empty string".to_string())
    );
    let result: Result<(), String> = Err("inner".to_string());
    assert_eq!(result.context(""), Err(": inner".to_string()));
}
