use diary::date::{leap_year, month_length, previous_day, target_date, Date, LocalTime};
use diary::digits::{i32_string, padded2_string, u64_string};
use diary::naming::{commit_message, heading_line, monthly_filename};
use diary::plan::{
    get_default_diary_path, git_command_outcome, join_path, plan_after_editor, prepare,
    resolve_editor, AfterEditor, Config, GitCommand, GitError, SetupError,
};
use diary::template::{heading_appendix, heading_present, put_template};

fn date(year: i32, month: u32, day: u32) -> Date {
    Date { year, month, day }
}

fn time(year: i32, month: u32, day: u32, hour: u32) -> LocalTime {
    LocalTime { year, month, day, hour }
}

#[test]
fn digits_render_unsigned() {
    assert_eq!(u64_string(0), "0");
    assert_eq!(u64_string(7), "7");
    assert_eq!(u64_string(10), "10");
    assert_eq!(u64_string(2024), "2024");
    assert_eq!(u64_string(u64::MAX), "18446744073709551615");
}

#[test]
fn digits_render_signed() {
    assert_eq!(i32_string(0), "0");
    assert_eq!(i32_string(2024), "2024");
    assert_eq!(i32_string(-5), "-5");
    assert_eq!(i32_string(i32::MIN), "-2147483648");
}

#[test]
fn digits_render_padded() {
    assert_eq!(padded2_string(3), "03");
    assert_eq!(padded2_string(0), "00");
    assert_eq!(padded2_string(11), "11");
    assert_eq!(padded2_string(99), "99");
}

#[test]
fn filename_pads_month_only() {
    assert_eq!(monthly_filename(date(2024, 3, 7)), "202403.md");
    assert_eq!(monthly_filename(date(2024, 11, 1)), "202411.md");
}

#[test]
fn heading_has_no_padding() {
    assert_eq!(heading_line(date(2024, 3, 7)), "## 2024/3/7");
    assert_eq!(heading_line(date(2024, 11, 1)), "## 2024/11/1");
}

#[test]
fn commit_message_format() {
    assert_eq!(commit_message(date(2024, 3, 7)), "auto commit for 2024/3/7 diary");
}

#[test]
fn leap_years() {
    assert!(leap_year(2024));
    assert!(!leap_year(2023));
    assert!(!leap_year(1900));
    assert!(leap_year(2000));
}

#[test]
fn month_lengths() {
    assert_eq!(month_length(2024, 2), 29);
    assert_eq!(month_length(2023, 2), 28);
    assert_eq!(month_length(2024, 1), 31);
    assert_eq!(month_length(2024, 4), 30);
    assert_eq!(month_length(2024, 12), 31);
}

#[test]
fn previous_day_within_month() {
    assert_eq!(previous_day(date(2024, 3, 7)), date(2024, 3, 6));
}

#[test]
fn previous_day_across_months() {
    assert_eq!(previous_day(date(2024, 3, 1)), date(2024, 2, 29));
    assert_eq!(previous_day(date(2023, 3, 1)), date(2023, 2, 28));
    assert_eq!(previous_day(date(2024, 5, 1)), date(2024, 4, 30));
}

#[test]
fn previous_day_across_years() {
    assert_eq!(previous_day(date(2024, 1, 1)), date(2023, 12, 31));
}

#[test]
fn target_date_early_hours_pick_yesterday() {
    assert_eq!(target_date(time(2024, 3, 7, 0)), date(2024, 3, 6));
    assert_eq!(target_date(time(2024, 3, 7, 14)), date(2024, 3, 6));
}

#[test]
fn target_date_late_hours_pick_today() {
    assert_eq!(target_date(time(2024, 3, 7, 15)), date(2024, 3, 7));
    assert_eq!(target_date(time(2024, 3, 7, 23)), date(2024, 3, 7));
}

#[test]
fn heading_scan_finds_exact_line() {
    let heading = "## 2024/3/7".to_string();
    let lines = vec![
        "# notes".to_string(),
        "## 2024/3/6".to_string(),
        "## 2024/3/7".to_string(),
    ];
    assert!(heading_present(&lines, &heading));
    let without = vec!["# notes".to_string(), "## 2024/3/77".to_string()];
    assert!(!heading_present(&without, &heading));
    assert!(!heading_present(&Vec::new(), &heading));
}

#[test]
fn template_on_missing_file_writes_heading_once() {
    let heading = "## 2024/3/7".to_string();
    let mut lines: Vec<String> = Vec::new();
    let appended = put_template(&mut lines, &heading);
    assert!(appended);
    assert_eq!(lines, vec!["".to_string(), "".to_string(), heading.clone()]);
    assert_eq!(lines.iter().filter(|l| **l == heading).count(), 1);
}

#[test]
fn template_run_twice_is_a_no_op() {
    let heading = "## 2024/3/7".to_string();
    let mut lines: Vec<String> = vec!["yesterday's prose".to_string()];
    let first = put_template(&mut lines, &heading);
    assert!(first);
    let after_first = lines.clone();
    let second = put_template(&mut lines, &heading);
    assert!(!second);
    assert_eq!(lines, after_first);
    assert_eq!(lines.iter().filter(|l| **l == heading).count(), 1);
}

#[test]
fn template_leaves_other_content_alone() {
    let heading = "## 2024/3/7".to_string();
    let mut lines: Vec<String> = vec![
        "## 2024/3/6".to_string(),
        "slept in".to_string(),
    ];
    assert!(put_template(&mut lines, &heading));
    assert_eq!(
        lines,
        vec![
            "## 2024/3/6".to_string(),
            "slept in".to_string(),
            "".to_string(),
            "".to_string(),
            "## 2024/3/7".to_string(),
        ]
    );
}

#[test]
fn appendix_bytes() {
    let heading = "## 2024/3/7".to_string();
    assert_eq!(heading_appendix(&heading), "\n\n## 2024/3/7\n");
}

#[test]
fn editor_resolution_order() {
    let both = Config {
        diary_dir: None,
        diary_editor: Some("hx".to_string()),
        editor: Some("nano".to_string()),
    };
    assert_eq!(resolve_editor(&both), "hx");
    let fallback = Config { diary_dir: None, diary_editor: None, editor: Some("nano".to_string()) };
    assert_eq!(resolve_editor(&fallback), "nano");
    let neither = Config { diary_dir: None, diary_editor: None, editor: None };
    assert_eq!(resolve_editor(&neither), "vim");
}

#[test]
fn default_diary_path_is_under_home() {
    assert_eq!(get_default_diary_path(&"/home/someone".to_string()), "/home/someone/diary");
}

#[test]
fn join_path_inserts_separator() {
    assert_eq!(join_path(&"/tmp/d".to_string(), &"202403.md".to_string()), "/tmp/d/202403.md");
}

#[test]
fn prepare_with_directory_override() {
    let cfg = Config {
        diary_dir: Some("/tmp/d".to_string()),
        diary_editor: None,
        editor: None,
    };
    let plan = prepare(&cfg, &None, time(2024, 3, 7, 16)).unwrap();
    assert_eq!(plan.date, date(2024, 3, 7));
    assert_eq!(plan.diary_dir, "/tmp/d");
    assert_eq!(plan.diary_file, "/tmp/d/202403.md");
    assert_eq!(plan.heading, "## 2024/3/7");
    assert_eq!(plan.editor, "vim");
}

#[test]
fn prepare_falls_back_to_home() {
    let cfg = Config { diary_dir: None, diary_editor: None, editor: None };
    let plan = prepare(&cfg, &Some("/home/someone".to_string()), time(2024, 3, 7, 9)).unwrap();
    assert_eq!(plan.date, date(2024, 3, 6));
    assert_eq!(plan.diary_dir, "/home/someone/diary");
    assert_eq!(plan.diary_file, "/home/someone/diary/202403.md");
    assert_eq!(plan.heading, "## 2024/3/6");
}

#[test]
fn prepare_without_home_fails() {
    let cfg = Config { diary_dir: None, diary_editor: None, editor: None };
    let err = match prepare(&cfg, &None, time(2024, 3, 7, 16)) {
        Ok(_) => panic!("a run without any diary directory must fail"),
        Err(e) => e,
    };
    assert_eq!(err, SetupError::NoHomeDirectory);
    assert_eq!(err.message(), "i couldn't find your home directory");
}

#[test]
fn after_editor_decisions() {
    assert_eq!(plan_after_editor(false, true), AfterEditor::ReportEditorFailure);
    assert_eq!(plan_after_editor(false, false), AfterEditor::ReportEditorFailure);
    assert_eq!(plan_after_editor(true, false), AfterEditor::SkipGit);
    assert_eq!(plan_after_editor(true, true), AfterEditor::RunGit);
}

#[test]
fn git_outcomes() {
    assert!(git_command_outcome(GitCommand::Add, true).is_ok());
    assert!(git_command_outcome(GitCommand::Commit, true).is_ok());
    assert_eq!(git_command_outcome(GitCommand::Add, false).unwrap_err(), GitError::AddFailed);
    let commit_err = git_command_outcome(GitCommand::Commit, false).unwrap_err();
    assert_eq!(commit_err, GitError::CommitFailed);
    assert_eq!(commit_err.message(), "failed to commit");
    assert_eq!(GitError::AddFailed.message(), "failed to run `git add`");
}

#[test]
fn prepare_from_environment_with_override() {
    let cfg = Config {
        diary_dir: Some("/tmp/diary-test".to_string()),
        diary_editor: Some("true".to_string()),
        editor: None,
    };
    let plan = diary::plan::prepare_from_environment(&cfg).unwrap();
    assert_eq!(plan.diary_dir, "/tmp/diary-test");
    assert!(plan.diary_file.starts_with("/tmp/diary-test/"));
    assert!(plan.diary_file.ends_with(".md"));
    assert!(plan.heading.starts_with("## "));
    assert_eq!(plan.editor, "true");
    assert!(1 <= plan.date.month && plan.date.month <= 12);
    assert!(1 <= plan.date.day && plan.date.day <= 31);
}
