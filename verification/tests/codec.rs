use tuixel::components::cron::utils::from_crontab;
use tuixel::components::cron::utils::is_canonical_record;
use tuixel::components::cron::utils::load;
use tuixel::components::cron::utils::parse_crontab;
use tuixel::components::cron::utils::to_crontab;
use tuixel::components::cron::utils::Listing;
use tuixel::components::cron::utils::LoadError;
use tuixel::components::cron::CronJob;

// 2024-01-01 00:00:00 UTC
const NOW: i64 = 1_704_067_200;

fn job(notation: &str, command: &str, description: &str) -> CronJob {
    CronJob {
        cron_notation: notation.to_string(),
        job: command.to_string(),
        job_description: description.to_string(),
        next_execution: String::new(),
    }
}

fn entries(jobs: &[CronJob]) -> Vec<(String, String, String)> {
    jobs.iter()
        .map(|j| (j.cron_notation.clone(), j.job.clone(), j.job_description.clone()))
        .collect()
}

fn entry(notation: &str, command: &str, description: &str) -> (String, String, String) {
    (notation.to_string(), command.to_string(), description.to_string())
}

#[test]
fn backup_entry_is_parsed() {
    let jobs = parse_crontab("# backup\n0 2 * * * /usr/bin/backup.sh\n", NOW);
    assert_eq!(jobs.len(), 1);
    assert_eq!(jobs[0].cron_notation, "0 2 * * *");
    assert_eq!(jobs[0].job, "/usr/bin/backup.sh");
    assert_eq!(jobs[0].job_description, "backup");
    assert_eq!(jobs[0].next_execution, "2024-01-01 02:00:00 UTC");
}

#[test]
fn backup_entry_is_written_as_it_was_read() {
    let jobs = parse_crontab("# backup\n0 2 * * * /usr/bin/backup.sh\n", NOW);
    assert_eq!(to_crontab(&jobs), "# backup\n0 2 * * * /usr/bin/backup.sh\n");
}

#[test]
fn blank_lines_are_skipped() {
    let jobs = parse_crontab("\n   \n\t\n*/5 * * * * run\n\n", NOW);
    assert_eq!(entries(&jobs), vec![entry("*/5 * * * *", "run", "")]);
}

#[test]
fn empty_text_holds_no_record() {
    assert_eq!(parse_crontab("", NOW).len(), 0);
    assert_eq!(parse_crontab("\n", NOW).len(), 0);
}

#[test]
fn last_line_needs_no_line_feed() {
    let jobs = parse_crontab("0 0 * * * a b c", NOW);
    assert_eq!(entries(&jobs), vec![entry("0 0 * * *", "a b c", "")]);
}

#[test]
fn lines_with_fewer_than_five_words_are_dropped() {
    let jobs = parse_crontab("* * * *\nfoo\n1 2 3 4 5 cmd\n", NOW);
    assert_eq!(entries(&jobs), vec![entry("1 2 3 4 5", "cmd", "")]);
}

#[test]
fn a_line_of_five_words_has_an_empty_command() {
    let jobs = parse_crontab("1 2 3 4 5\n", NOW);
    assert_eq!(entries(&jobs), vec![entry("1 2 3 4 5", "", "")]);
    assert_eq!(to_crontab(&jobs), "");
}

#[test]
fn words_are_joined_by_single_spaces() {
    let jobs = parse_crontab("  0\t2  *   * \u{a0}* echo   hello\tworld  \r\n", NOW);
    assert_eq!(entries(&jobs), vec![entry("0 2 * * *", "echo hello world", "")]);
}

#[test]
fn a_comment_describes_the_next_record_only() {
    let text = "# first\n0 1 * * * one\n0 2 * * * two\n";
    let jobs = parse_crontab(text, NOW);
    assert_eq!(
        entries(&jobs),
        vec![entry("0 1 * * *", "one", "first"), entry("0 2 * * *", "two", "")]
    );
}

#[test]
fn the_last_comment_before_a_record_wins() {
    let jobs = parse_crontab("# old\n# new\n0 1 * * * one\n", NOW);
    assert_eq!(entries(&jobs), vec![entry("0 1 * * *", "one", "new")]);
}

#[test]
fn a_comment_waits_over_blank_and_dropped_lines() {
    let jobs = parse_crontab("# kept\n\nbroken line\n0 1 * * * one\n", NOW);
    assert_eq!(entries(&jobs), vec![entry("0 1 * * *", "one", "kept")]);
}

#[test]
fn comment_markers_and_whitespace_are_stripped() {
    let jobs = parse_crontab("  ###   nightly  job  \n0 1 * * * one\n", NOW);
    assert_eq!(entries(&jobs), vec![entry("0 1 * * *", "one", "nightly  job")]);
    let jobs = parse_crontab("#\n0 1 * * * one\n", NOW);
    assert_eq!(entries(&jobs), vec![entry("0 1 * * *", "one", "")]);
    let jobs = parse_crontab("# #tag\n0 1 * * * one\n", NOW);
    assert_eq!(entries(&jobs), vec![entry("0 1 * * *", "one", "#tag")]);
}

#[test]
fn each_record_gets_its_next_run() {
    let jobs = parse_crontab("30 4 * * * a\nnot a cron line at all\n", NOW);
    assert_eq!(jobs.len(), 2);
    assert_eq!(jobs[0].next_execution, "2024-01-01 04:30:00 UTC");
    assert_eq!(jobs[1].cron_notation, "not a cron line at");
    assert_eq!(jobs[1].job, "all");
    assert_eq!(jobs[1].next_execution, "Invalid cron expression");
}

#[test]
fn records_without_a_command_are_not_written() {
    let jobs = vec![job("0 1 * * *", "", "ghost"), job("0 2 * * *", "two", "")];
    assert_eq!(to_crontab(&jobs), "0 2 * * * two\n");
}

#[test]
fn entries_follow_each_other_without_a_blank_line() {
    let jobs = vec![
        job("0 1 * * *", "one", "first"),
        job("0 2 * * *", "two", ""),
        job("0 3 * * *", "three", "third"),
    ];
    assert_eq!(
        to_crontab(&jobs),
        "# first\n0 1 * * * one\n0 2 * * * two\n# third\n0 3 * * * three\n"
    );
}

#[test]
fn no_records_give_an_empty_text() {
    assert_eq!(to_crontab(&Vec::new()), "");
}

#[test]
fn canonical_records_are_read_back_as_written() {
    let jobs = vec![
        job("0 2 * * *", "/usr/bin/backup.sh --all", "backup"),
        job("*/15 9-17 * * 1-5", "ping host", ""),
        job("@ b c d e", "x", "#hash  inside"),
        job("0 0 1 1 *", "fireworks", "new year"),
    ];
    let back = parse_crontab(&to_crontab(&jobs), NOW);
    assert_eq!(entries(&back), entries(&jobs));
    assert_eq!(to_crontab(&back), to_crontab(&jobs));
}

#[test]
fn records_that_are_not_canonical_change_on_the_way() {
    let jobs = vec![job("0  2 * * *", "run", " padded ")];
    let back = parse_crontab(&to_crontab(&jobs), NOW);
    assert_eq!(entries(&back), vec![entry("0 2 * * *", "run", "padded")]);
    let jobs = vec![job("#0 2 * * *", "run", "")];
    assert_eq!(parse_crontab(&to_crontab(&jobs), NOW).len(), 0);
    let jobs = vec![job("0 2 * *", "* run", "")];
    let back = parse_crontab(&to_crontab(&jobs), NOW);
    assert_eq!(entries(&back), vec![entry("0 2 * * *", "run", "")]);
}

#[test]
fn a_listed_schedule_is_parsed() {
    let listing = Listing::Listed("# backup\n0 2 * * * /usr/bin/backup.sh\n".to_string());
    let jobs = from_crontab(&listing, NOW).unwrap();
    assert_eq!(entries(&jobs), vec![entry("0 2 * * *", "/usr/bin/backup.sh", "backup")]);
}

#[test]
fn no_schedule_gives_one_placeholder_record() {
    let listing = Listing::Refused("no crontab for alice\n".to_string());
    let jobs = from_crontab(&listing, NOW).unwrap();
    assert_eq!(jobs.len(), 1);
    assert_eq!(jobs[0].cron_notation, "User has no crontab");
    assert!(!jobs[0].cron_notation.is_empty());
    assert_eq!(jobs[0].job, "");
    assert_eq!(jobs[0].job_description, "");
    assert_eq!(jobs[0].next_execution, "");
    let jobs = load(&Listing::Refused("crontab: no crontab for bob".to_string()), NOW);
    assert_eq!(entries(&jobs), vec![entry("User has no crontab", "", "")]);
}

#[test]
fn any_other_refusal_is_an_error() {
    let listing = Listing::Refused("permission denied".to_string());
    match from_crontab(&listing, NOW) {
        Err(LoadError::Refused) => {}
        other => panic!("unexpected: {:?}", other.map(|jobs| jobs.len())),
    }
    assert_eq!(LoadError::Refused.message(), "Failed to read crontab");
    let jobs = load(&listing, NOW);
    assert_eq!(entries(&jobs), vec![entry("Error: Failed to read crontab", "", "")]);
    assert_eq!(jobs[0].next_execution, "");
}

#[test]
fn a_query_that_could_not_run_is_an_error_with_its_message() {
    let listing = Listing::Unavailable("No such file or directory (os error 2)".to_string());
    match from_crontab(&listing, NOW) {
        Err(LoadError::Unavailable(message)) => {
            assert_eq!(message, "No such file or directory (os error 2)")
        }
        other => panic!("unexpected: {:?}", other.map(|jobs| jobs.len())),
    }
    let jobs = load(&listing, NOW);
    assert_eq!(jobs.len(), 1);
    assert_eq!(jobs[0].cron_notation, "Error: No such file or directory (os error 2)");
}

#[test]
fn an_empty_refusal_is_not_a_missing_schedule() {
    assert!(from_crontab(&Listing::Refused(String::new()), NOW).is_err());
    assert!(from_crontab(&Listing::Refused("no crontab fo".to_string()), NOW).is_err());
}

#[test]
fn canonical_records_are_told_apart() {
    assert!(is_canonical_record(&job("0 2 * * *", "run", "")));
    assert!(is_canonical_record(&job("0 2 * * *", "run --all now", "nightly  backup")));
    assert!(is_canonical_record(&job("a b c d e", "x", "#tag")));
    assert!(!is_canonical_record(&job("0 2 * * *", "", "")));
    assert!(!is_canonical_record(&job("0 2 * * *", " ", "")));
    assert!(!is_canonical_record(&job("0 2 * * *", "run ", "")));
    assert!(!is_canonical_record(&job("0 2 * * *", "run  twice", "")));
    assert!(!is_canonical_record(&job("0 2 * * *", "run\nmore", "")));
    assert!(!is_canonical_record(&job("0 2 * *", "run", "")));
    assert!(!is_canonical_record(&job("0 2 * * * *", "run", "")));
    assert!(!is_canonical_record(&job("0  2 * * *", "run", "")));
    assert!(!is_canonical_record(&job("0\t2 * * *", "run", "")));
    assert!(!is_canonical_record(&job(" 0 2 * * *", "run", "")));
    assert!(!is_canonical_record(&job("#0 2 * * *", "run", "")));
    assert!(!is_canonical_record(&job("", "run", "")));
    assert!(!is_canonical_record(&job("0 2 * * *", "run", " padded")));
    assert!(!is_canonical_record(&job("0 2 * * *", "run", "padded\t")));
    assert!(!is_canonical_record(&job("0 2 * * *", "run", "two\nlines")));
}

#[test]
fn exactly_the_canonical_records_are_read_back_as_written() {
    let samples = vec![
        job("0 2 * * *", "run", ""),
        job("0 2 * * *", "run", "nightly"),
        job("*/5 * * * 1-5", "a b  c", ""),
        job("0 2 * * *", "run", " pad"),
        job("0 2 * * *", "run", "#"),
        job("0 2 * * *", "run", "# x"),
        job("0 2 * *", "* run", ""),
        job("0 2 * * * *", "run", ""),
        job("#0 2 * * *", "run", ""),
        job("0 2 * * *", "run\t", ""),
        job("0 2 * * *", "\u{a0}run", ""),
        job("0 2 * * #", "run #not a comment", "x"),
        job("0 2\n* * *", "run", ""),
        job("0 2 * * *", "run", "a\nb"),
    ];
    for sample in samples {
        let list = vec![sample.duplicate()];
        let back = parse_crontab(&to_crontab(&list), NOW);
        let same = entries(&back) == entries(&list);
        assert_eq!(same, is_canonical_record(&sample), "{:?}", sample);
    }
}
