use tuixel::components::cron::utils::get_next_execution;
use tuixel::components::cron::utils::is_valid_expression;
use tuixel::components::cron::utils::next_execution_text;
use tuixel::components::cron::utils::trimmed;

// 2024-01-01 00:00:00 UTC
const NEW_YEAR_2024: i64 = 1_704_067_200;

#[test]
fn next_run_of_a_daily_job_is_the_same_day() {
    assert_eq!(get_next_execution("0 2 * * *", NEW_YEAR_2024), "2024-01-01 02:00:00 UTC");
}

#[test]
fn next_run_is_strictly_after_the_instant() {
    assert_eq!(get_next_execution("0 0 * * *", NEW_YEAR_2024), "2024-01-02 00:00:00 UTC");
    assert_eq!(get_next_execution("0 0 * * *", NEW_YEAR_2024 - 1), "2024-01-01 00:00:00 UTC");
    assert_eq!(get_next_execution("* * * * *", NEW_YEAR_2024 + 59), "2024-01-01 00:01:00 UTC");
}

#[test]
fn next_run_follows_the_reference_instant() {
    assert_eq!(get_next_execution("0 0 29 2 *", NEW_YEAR_2024), "2024-02-29 00:00:00 UTC");
    assert_eq!(get_next_execution("0 0 29 2 *", 0), "1972-02-29 00:00:00 UTC");
}

#[test]
fn next_run_is_the_same_for_the_same_inputs() {
    let first = get_next_execution("*/7 3 * * *", NEW_YEAR_2024);
    let second = get_next_execution("*/7 3 * * *", NEW_YEAR_2024);
    assert_eq!(first, second);
    assert!(!first.is_empty());
    assert_eq!(first, "2024-01-01 03:00:00 UTC");
}

#[test]
fn next_run_of_an_invalid_expression_is_the_marker() {
    assert_eq!(get_next_execution("bad", NEW_YEAR_2024), "Invalid cron expression");
    assert_eq!(get_next_execution("", NEW_YEAR_2024), "Invalid cron expression");
    assert_eq!(get_next_execution("* * * *", NEW_YEAR_2024), "Invalid cron expression");
    assert_eq!(get_next_execution("* * * * * *", NEW_YEAR_2024), "Invalid cron expression");
    assert_eq!(get_next_execution("60 * * * *", NEW_YEAR_2024), "Invalid cron expression");
    assert_eq!(get_next_execution("0 0 31 2 *", NEW_YEAR_2024), "Invalid cron expression");
}

#[test]
fn an_instant_outside_the_calendar_has_no_next_run() {
    assert_eq!(get_next_execution("* * * * *", i64::MAX), "Invalid cron expression");
    assert_eq!(get_next_execution("* * * * *", i64::MIN), "Invalid cron expression");
    assert!(!is_valid_expression("* * * * *", i64::MAX));
}

#[test]
fn the_text_of_an_outcome_is_the_occurrence_or_the_marker() {
    assert_eq!(next_execution_text(Some("soon".to_string())), "soon");
    assert_eq!(next_execution_text(None), "Invalid cron expression");
}

#[test]
fn validity_ignores_surrounding_whitespace() {
    assert!(is_valid_expression("  */5 * * * *  ", NEW_YEAR_2024));
    assert!(is_valid_expression("0 2 * * *", NEW_YEAR_2024));
    assert!(!is_valid_expression("   ", NEW_YEAR_2024));
    assert!(!is_valid_expression("", NEW_YEAR_2024));
    assert!(!is_valid_expression("61 * * * *", NEW_YEAR_2024));
    assert!(!is_valid_expression("bad", NEW_YEAR_2024));
}

#[test]
fn trimming_removes_whitespace_at_both_ends_only() {
    assert_eq!(trimmed("  a  b \t\r\n"), "a  b");
    assert_eq!(trimmed("\u{3000}x\u{2003}"), "x");
    assert_eq!(trimmed(" \n "), "");
    assert_eq!(trimmed(""), "");
    assert_eq!(trimmed("plain"), "plain");
}
