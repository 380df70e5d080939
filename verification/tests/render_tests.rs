use task_tracker::commands::{
    done_flag, mode_str, parse_done, report_add, report_bad_flag, report_delete, report_list,
    report_update, Report,
};
use task_tracker::db::task::{insert_task, Task, TaskError};
use task_tracker::text::{decimal_text, digit_text, flag_str, push_decimal};
use task_tracker::{command_switch, connect_db, run, Args, Commands};

fn task(id: u32, name: &str, is_done: bool) -> Task {
    Task {
        id,
        name: name.to_string(),
        is_done,
        created_at: "2024-05-06 07:08:09".to_string(),
        deleted_at: None,
    }
}

fn lines(items: &[&str]) -> Vec<String> {
    items.iter().map(|item| item.to_string()).collect()
}

#[test]
fn decimal_text_of_small_and_large_numbers() {
    assert_eq!(decimal_text(0), "0");
    assert_eq!(decimal_text(7), "7");
    assert_eq!(decimal_text(10), "10");
    assert_eq!(decimal_text(109), "109");
    assert_eq!(decimal_text(1234567890), "1234567890");
    assert_eq!(decimal_text(u32::MAX), "4294967295");
}

#[test]
fn push_decimal_appends_to_what_is_there() {
    let mut text = String::from("n=");
    push_decimal(&mut text, 42);
    assert_eq!(text, "n=42");
    push_decimal(&mut text, 0);
    assert_eq!(text, "n=420");
}

#[test]
fn digit_text_of_each_digit() {
    let digits: Vec<&str> = (0..10).map(digit_text).collect();
    assert_eq!(
        digits,
        vec!["0", "1", "2", "3", "4", "5", "6", "7", "8", "9"]
    );
    assert_eq!(digit_text(10), "9");
}

#[test]
fn flag_and_mode_words() {
    assert_eq!(flag_str(true), "true");
    assert_eq!(flag_str(false), "false");
    assert_eq!(mode_str(true), "in dry run mode");
    assert_eq!(mode_str(false), "in normal mode");
}

#[test]
fn log_line_of_a_task() {
    assert_eq!(
        task(12, "Buy milk", false).log(),
        "id = 12, name = Buy milk, is_done = false, created_at = 2024-05-06 07:08:09"
    );
    assert_eq!(
        task(1, "", true).log(),
        "id = 1, name = , is_done = true, created_at = 2024-05-06 07:08:09"
    );
}

#[test]
fn done_flag_reads_lower_case_words_only() {
    assert_eq!(done_flag(&"true".to_string()), Some(true));
    assert_eq!(done_flag(&"false".to_string()), Some(false));
    assert_eq!(done_flag(&"True".to_string()), None);
    assert_eq!(done_flag(&"".to_string()), None);
    assert_eq!(done_flag(&"yes".to_string()), None);
    assert_eq!(done_flag(&"true ".to_string()), None);
}

#[test]
fn parse_done_ignores_case() {
    assert_eq!(parse_done("true"), Some(true));
    assert_eq!(parse_done("TRUE"), Some(true));
    assert_eq!(parse_done("TrUe"), Some(true));
    assert_eq!(parse_done("false"), Some(false));
    assert_eq!(parse_done("False"), Some(false));
    assert_eq!(parse_done("invalid"), None);
    assert_eq!(parse_done("1"), None);
    assert_eq!(parse_done(""), None);
}

#[test]
fn dry_test_of_each_command() {
    assert!(Commands::Add { name: "n".to_string(), dry_test: true }.dry_test());
    assert!(!Commands::Add { name: "n".to_string(), dry_test: false }.dry_test());
    assert!(Commands::Update { id: 1, done: "true".to_string(), dry_test: true }.dry_test());
    assert!(!Commands::Update { id: 1, done: "true".to_string(), dry_test: false }.dry_test());
    assert!(Commands::Get { dry_test: true }.dry_test());
    assert!(!Commands::Get { dry_test: false }.dry_test());
    assert!(Commands::Delete { id: 1, dry_test: true }.dry_test());
    assert!(!Commands::Delete { id: 1, dry_test: false }.dry_test());
}

#[test]
fn report_of_an_add() {
    assert_eq!(
        report_add("Buy milk", false, Ok(task(1, "Buy milk", false))),
        Report {
            out: lines(&["Add task Buy milk in normal mode"]),
            err: lines(&[]),
            failure: None,
        }
    );
    assert_eq!(
        report_add("", true, Err(TaskError::Validation)),
        Report {
            out: lines(&["Add task  in dry run mode"]),
            err: lines(&["Task name cannot be empty"]),
            failure: Some(TaskError::Validation),
        }
    );
    assert_eq!(
        report_add("x", false, Err(TaskError::Storage("disk full".to_string()))),
        Report {
            out: lines(&["Add task x in normal mode"]),
            err: lines(&["disk full"]),
            failure: Some(TaskError::Storage("disk full".to_string())),
        }
    );
}

#[test]
fn report_of_an_update() {
    assert_eq!(
        report_update(3, "TRUE", false, Ok(task(3, "Call", true))),
        Report {
            out: lines(&[
                "Update task 3 with done status: TRUE in normal mode",
                "id = 3, name = Call, is_done = true, created_at = 2024-05-06 07:08:09",
            ]),
            err: lines(&[]),
            failure: None,
        }
    );
    assert_eq!(
        report_update(40, "false", true, Err(TaskError::NotFound)),
        Report {
            out: lines(&["Update task 40 with done status: false in dry run mode"]),
            err: lines(&["Task not found"]),
            failure: Some(TaskError::NotFound),
        }
    );
    assert_eq!(
        report_bad_flag(3, "maybe", false),
        Report {
            out: lines(&["Update task 3 with done status: maybe in normal mode"]),
            err: lines(&["Invalid value for done status. Expected 'true' or 'false'"]),
            failure: None,
        }
    );
}

#[test]
fn report_of_a_listing() {
    assert_eq!(
        report_list(false, Ok(vec![task(1, "A", false), task(2, "B", true)])),
        Report {
            out: lines(&[
                "List tasks in normal mode",
                "id = 1, name = A, is_done = false, created_at = 2024-05-06 07:08:09",
                "id = 2, name = B, is_done = true, created_at = 2024-05-06 07:08:09",
            ]),
            err: lines(&[]),
            failure: None,
        }
    );
    assert_eq!(
        report_list(true, Ok(Vec::new())),
        Report {
            out: lines(&["List tasks in dry run mode"]),
            err: lines(&[]),
            failure: None,
        }
    );
    assert_eq!(
        report_list(false, Err(TaskError::Storage("locked".to_string()))),
        Report {
            out: lines(&["List tasks in normal mode"]),
            err: lines(&["locked"]),
            failure: Some(TaskError::Storage("locked".to_string())),
        }
    );
}

#[test]
fn report_of_a_delete() {
    assert_eq!(
        report_delete(1, false, Ok(task(1, "Test", false))),
        Report {
            out: lines(&[
                "Delete task 1 with id in normal mode",
                "Task deleted successfully",
                "id = 1, name = Test, is_done = false, created_at = 2024-05-06 07:08:09",
            ]),
            err: lines(&[]),
            failure: None,
        }
    );
    assert_eq!(
        report_delete(1, true, Err(TaskError::NotFound)),
        Report {
            out: lines(&["Delete task 1 with id in dry run mode", "Task not found"]),
            err: lines(&["Error deleting task: Task not found"]),
            failure: None,
        }
    );
    assert_eq!(
        report_delete(1, false, Err(TaskError::Storage("locked".to_string()))),
        Report {
            out: lines(&["Delete task 1 with id in normal mode"]),
            err: lines(&["Error deleting task: locked"]),
            failure: Some(TaskError::Storage("locked".to_string())),
        }
    );
}

#[test]
fn command_switch_reports_what_each_command_did() {
    let mut conn = connect_db(Some(true), None).unwrap();

    let added = command_switch(
        Args { cmd: Commands::Add { name: "Test".to_string(), dry_test: false } },
        &mut conn,
    );
    assert_eq!(added.out, lines(&["Add task Test in normal mode"]));
    assert!(added.err.is_empty());
    assert_eq!(added.failure, None);

    let second = insert_task(&mut conn, "Other".to_string()).unwrap();

    let updated = command_switch(
        Args { cmd: Commands::Update { id: 1, done: "True".to_string(), dry_test: false } },
        &mut conn,
    );
    assert_eq!(updated.out.len(), 2);
    assert_eq!(updated.out[0], "Update task 1 with done status: True in normal mode");
    assert!(updated.out[1].starts_with("id = 1, name = Test, is_done = true, created_at = "));
    assert_eq!(updated.failure, None);

    let listed = command_switch(Args { cmd: Commands::Get { dry_test: false } }, &mut conn);
    assert_eq!(listed.out.len(), 3);
    assert_eq!(listed.out[0], "List tasks in normal mode");
    assert_eq!(listed.out[1], updated.out[1]);
    assert_eq!(listed.out[2], second.log());
    assert_eq!(listed.failure, None);

    let deleted = command_switch(
        Args { cmd: Commands::Delete { id: 1, dry_test: false } },
        &mut conn,
    );
    assert_eq!(
        deleted.out,
        vec![
            "Delete task 1 with id in normal mode".to_string(),
            "Task deleted successfully".to_string(),
            updated.out[1].clone(),
        ]
    );
    assert_eq!(deleted.failure, None);

    let again = command_switch(
        Args { cmd: Commands::Delete { id: 1, dry_test: false } },
        &mut conn,
    );
    assert_eq!(
        again,
        Report {
            out: lines(&["Delete task 1 with id in normal mode", "Task not found"]),
            err: lines(&["Error deleting task: Task not found"]),
            failure: None,
        }
    );

    let listed = command_switch(Args { cmd: Commands::Get { dry_test: false } }, &mut conn);
    assert_eq!(
        listed.out,
        vec!["List tasks in normal mode".to_string(), second.log()]
    );
}

#[test]
fn command_switch_reports_failures() {
    let mut conn = connect_db(Some(true), None).unwrap();

    let empty = command_switch(
        Args { cmd: Commands::Add { name: "".to_string(), dry_test: false } },
        &mut conn,
    );
    assert_eq!(
        empty,
        Report {
            out: lines(&["Add task  in normal mode"]),
            err: lines(&["Task name cannot be empty"]),
            failure: Some(TaskError::Validation),
        }
    );

    let missing = command_switch(
        Args { cmd: Commands::Update { id: 1, done: "true".to_string(), dry_test: true } },
        &mut conn,
    );
    assert_eq!(
        missing,
        Report {
            out: lines(&["Update task 1 with done status: true in dry run mode"]),
            err: lines(&["Task not found"]),
            failure: Some(TaskError::NotFound),
        }
    );

    let invalid = command_switch(
        Args { cmd: Commands::Update { id: 1, done: "invalid".to_string(), dry_test: false } },
        &mut conn,
    );
    assert_eq!(
        invalid,
        Report {
            out: lines(&["Update task 1 with done status: invalid in normal mode"]),
            err: lines(&["Invalid value for done status. Expected 'true' or 'false'"]),
            failure: None,
        }
    );
}

#[test]
fn command_switch_reports_a_store_failure() {
    let mut conn = rusqlite::Connection::open_in_memory().unwrap();

    let added = command_switch(
        Args { cmd: Commands::Add { name: "Test".to_string(), dry_test: false } },
        &mut conn,
    );
    assert_eq!(added.out, lines(&["Add task Test in normal mode"]));
    assert_eq!(added.err.len(), 1);
    assert!(added.err[0].contains("no such table"));
    assert_eq!(added.failure, Some(TaskError::Storage(added.err[0].clone())));

    let deleted = command_switch(
        Args { cmd: Commands::Delete { id: 1, dry_test: false } },
        &mut conn,
    );
    assert_eq!(deleted.out, lines(&["Delete task 1 with id in normal mode"]));
    assert_eq!(deleted.err.len(), 1);
    assert!(deleted.err[0].starts_with("Error deleting task: "));
    assert!(matches!(deleted.failure, Some(TaskError::Storage(_))));
}

#[test]
fn commands_and_errors_clone_to_equal_values() {
    let cmd = Commands::Update { id: 4, done: "true".to_string(), dry_test: true };
    assert_eq!(cmd.clone(), cmd);
    let cmd = Commands::Add { name: "n".to_string(), dry_test: false };
    assert_eq!(cmd.clone(), cmd);
    assert_eq!(Commands::Get { dry_test: true }.clone(), Commands::Get { dry_test: true });
    assert_eq!(
        Commands::Delete { id: 2, dry_test: false }.clone(),
        Commands::Delete { id: 2, dry_test: false }
    );
    let error = TaskError::Storage("x".to_string());
    assert_eq!(error.clone(), error);
    assert_eq!(TaskError::NotFound.clone(), TaskError::NotFound);
    assert_eq!(TaskError::Validation.clone(), TaskError::Validation);
}

#[test]
fn run_reports_the_command_or_a_storage_failure() {
    match run(Args { cmd: Commands::Get { dry_test: true } }) {
        Ok(report) => {
            assert_eq!(report.out[0], "List tasks in dry run mode");
            assert!(report.err.is_empty());
            assert_eq!(report.failure, None);
        }
        Err(error) => assert!(matches!(error, TaskError::Storage(_))),
    }
}
