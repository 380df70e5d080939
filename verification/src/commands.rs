//! The command dispatcher: one command in, one task operation on the store,
//! and the lines to print out.

use crate::db::task::{
    delete_effect, delete_task, insert_effect, insert_task, line_of, list_effect, message_of,
    read_tasks, update_effect, update_task_status, Failure, Task, TaskError,
};
use crate::text::{decimal, lowercase, lowercase_of, push_decimal};
use crate::Args;
use rusqlite::Connection;
use vstd::prelude::*;
use vstd::string::StringExecFns;

verus! {

/// One command of the tracker.
#[derive(Debug, PartialEq, Eq)]
pub enum Commands {
    /// Add a new task.
    Add { name: String, dry_test: bool },
    /// Mark a task as done or not done; `done` is the word the user gave.
    Update { id: u32, done: String, dry_test: bool },
    /// List the active tasks.
    Get { dry_test: bool },
    /// Delete a task by id.
    Delete { id: u32, dry_test: bool },
}

impl Clone for Commands {
    fn clone(&self) -> (copy: Commands)
        ensures
            copy == *self,
    {
        match self {
            Commands::Add { name, dry_test } => Commands::Add {
                name: name.clone(),
                dry_test: *dry_test,
            },
            Commands::Update { id, done, dry_test } => Commands::Update {
                id: *id,
                done: done.clone(),
                dry_test: *dry_test,
            },
            Commands::Get { dry_test } => Commands::Get { dry_test: *dry_test },
            Commands::Delete { id, dry_test } => Commands::Delete { id: *id, dry_test: *dry_test },
        }
    }
}

impl Commands {
    /// Whether the command asks for the scratch database.
    pub open spec fn is_dry(self) -> bool {
        match self {
            Commands::Add { dry_test, .. } => dry_test,
            Commands::Update { dry_test, .. } => dry_test,
            Commands::Get { dry_test } => dry_test,
            Commands::Delete { dry_test, .. } => dry_test,
        }
    }

    /// Whether the command asks for the scratch database.
    pub fn dry_test(&self) -> (dry: bool)
        ensures
            dry == self.is_dry(),
    {
        match self {
            Commands::Add { dry_test, .. } => *dry_test,
            Commands::Update { dry_test, .. } => *dry_test,
            Commands::Get { dry_test } => *dry_test,
            Commands::Delete { dry_test, .. } => *dry_test,
        }
    }
}

/// What a command leaves for the boundary to print, and whether it failed.
#[derive(Debug, PartialEq, Eq)]
pub struct Report {
    /// Lines for standard output, in order.
    pub out: Vec<String>,
    /// Lines for standard error, in order.
    pub err: Vec<String>,
    /// The failure that ends the command unsuccessfully, if any.
    pub failure: Option<TaskError>,
}

/// A report as a mathematical value.
pub ghost struct ReportView {
    pub out: Seq<Seq<char>>,
    pub err: Seq<Seq<char>>,
    pub failure: Option<Failure>,
}

/// The characters of each line.
pub open spec fn lines_of(lines: Seq<String>) -> Seq<Seq<char>> {
    lines.map_values(|line: String| line@)
}

/// The failure that an optional error stands for.
pub open spec fn failure_of(error: Option<TaskError>) -> Option<Failure> {
    match error {
        Some(e) => Some(e@),
        None => None,
    }
}

impl View for Report {
    type V = ReportView;

    open spec fn view(&self) -> ReportView {
        ReportView {
            out: lines_of(self.out@),
            err: lines_of(self.err@),
            failure: failure_of(self.failure),
        }
    }
}

/// The words that name the mode of a run.
pub open spec fn mode_text(dry_test: bool) -> Seq<char> {
    if dry_test {
        "in dry run mode"@
    } else {
        "in normal mode"@
    }
}

/// The done flag that a lower-case word stands for.
pub open spec fn flag_of(lowered: Seq<char>) -> Option<bool> {
    if lowered == "true"@ {
        Some(true)
    } else if lowered == "false"@ {
        Some(false)
    } else {
        None
    }
}

/// The line that announces an `Add`.
pub open spec fn add_header(name: Seq<char>, dry_test: bool) -> Seq<char> {
    "Add task "@ + name + " "@ + mode_text(dry_test)
}

/// The line that announces an `Update`.
pub open spec fn update_header(id: u32, done: Seq<char>, dry_test: bool) -> Seq<char> {
    "Update task "@ + decimal(id as nat) + " with done status: "@ + done + " "@ + mode_text(
        dry_test,
    )
}

/// The line that announces a `Get`.
pub open spec fn list_header(dry_test: bool) -> Seq<char> {
    "List tasks "@ + mode_text(dry_test)
}

/// The line that announces a `Delete`.
pub open spec fn delete_header(id: u32, dry_test: bool) -> Seq<char> {
    "Delete task "@ + decimal(id as nat) + " with id "@ + mode_text(dry_test)
}

/// The report of a command that failed with `error` after printing `header`:
/// the message goes to standard error and the command ends unsuccessfully.
pub open spec fn failed(header: Seq<char>, error: Failure) -> ReportView {
    ReportView { out: seq![header], err: seq![message_of(error)], failure: Some(error) }
}

/// The report of an `Add`: the header, and nothing more on success.
pub open spec fn add_report(name: Seq<char>, dry_test: bool, r: Result<Task, TaskError>) -> ReportView {
    match r {
        Ok(_) => ReportView {
            out: seq![add_header(name, dry_test)],
            err: seq![],
            failure: None,
        },
        Err(error) => failed(add_header(name, dry_test), error@),
    }
}

/// The report of an `Update` whose done word is neither `true` nor `false`.
pub open spec fn bad_flag_report(id: u32, done: Seq<char>, dry_test: bool) -> ReportView {
    ReportView {
        out: seq![update_header(id, done, dry_test)],
        err: seq!["Invalid value for done status. Expected 'true' or 'false'"@],
        failure: None,
    }
}

/// The report of an `Update`: the header, then the task as it stands.
pub open spec fn update_report(
    id: u32,
    done: Seq<char>,
    dry_test: bool,
    r: Result<Task, TaskError>,
) -> ReportView {
    match r {
        Ok(task) => ReportView {
            out: seq![update_header(id, done, dry_test), line_of(task@)],
            err: seq![],
            failure: None,
        },
        Err(error) => failed(update_header(id, done, dry_test), error@),
    }
}

/// The report of a `Get`: the header, then one line per task, in order.
pub open spec fn list_report(dry_test: bool, r: Result<Vec<Task>, TaskError>) -> ReportView {
    match r {
        Ok(tasks) => ReportView {
            out: seq![list_header(dry_test)] + tasks@.map_values(|t: Task| line_of(t@)),
            err: seq![],
            failure: None,
        },
        Err(error) => failed(list_header(dry_test), error@),
    }
}

/// The report of a `Delete`: the header, then the confirmation and the task
/// as it stands. A task that is not there is told on both streams and does
/// not end the command unsuccessfully; a store failure does.
pub open spec fn delete_report(id: u32, dry_test: bool, r: Result<Task, TaskError>) -> ReportView {
    match r {
        Ok(task) => ReportView {
            out: seq![delete_header(id, dry_test), "Task deleted successfully"@, line_of(task@)],
            err: seq![],
            failure: None,
        },
        Err(TaskError::NotFound) => ReportView {
            out: seq![delete_header(id, dry_test), message_of(Failure::NotFound)],
            err: seq!["Error deleting task: "@ + message_of(Failure::NotFound)],
            failure: None,
        },
        Err(error) => ReportView {
            out: seq![delete_header(id, dry_test)],
            err: seq!["Error deleting task: "@ + message_of(error@)],
            failure: Some(error@),
        },
    }
}

/// What running `cmd` does, from the connection before to the connection
/// after: the one task operation of the command has its effect, and the report
/// is that of the operation's result. A done word that is neither `true` nor
/// `false` is reported without any operation, and the connection is left
/// untouched; so is it by a listing.
pub open spec fn switched(
    cmd: Commands,
    before: Connection,
    after: Connection,
    report: ReportView,
) -> bool {
    match cmd {
        Commands::Add { name, dry_test } => exists|r: Result<Task, TaskError>|
            #[trigger] insert_effect(before, after, name@, r) && report == add_report(
                name@,
                dry_test,
                r,
            ),
        Commands::Update { id, done, dry_test } => match flag_of(lowercase_of(done@)) {
            Some(flag) => exists|r: Result<Task, TaskError>|
                #[trigger] update_effect(before, after, id as int, flag, r) && report
                    == update_report(id, done@, dry_test, r),
            None => after == before && report == bad_flag_report(id, done@, dry_test),
        },
        Commands::Get { dry_test } => after == before && exists|r: Result<Vec<Task>, TaskError>|
            #[trigger] list_effect(before, r) && report == list_report(dry_test, r),
        Commands::Delete { id, dry_test } => exists|r: Result<Task, TaskError>|
            #[trigger] delete_effect(before, after, id as int, r) && report == delete_report(
                id,
                dry_test,
                r,
            ),
    }
}

/// The words that name the mode of a run.
pub fn mode_str(dry_test: bool) -> (text: &'static str)
    ensures
        text@ == mode_text(dry_test),
{
    if dry_test {
        "in dry run mode"
    } else {
        "in normal mode"
    }
}

/// The done flag that a lower-case word stands for: `true`, `false`, or none.
pub fn done_flag(lowered: &String) -> (flag: Option<bool>)
    ensures
        flag == flag_of(lowered@),
{
    if *lowered == String::from_str("true") {
        Some(true)
    } else if *lowered == String::from_str("false") {
        Some(false)
    } else {
        None
    }
}

/// The done flag that a word stands for, whatever its case.
pub fn parse_done(done: &str) -> (flag: Option<bool>)
    ensures
        flag == flag_of(lowercase_of(done@)),
{
    let lowered = lowercase(done);
    done_flag(&lowered)
}

/// A report with one line on standard output.
fn opened(header: String) -> (report: Report)
    ensures
        report@ == (ReportView { out: seq![header@], err: seq![], failure: None }),
{
    let mut out: Vec<String> = Vec::new();
    out.push(header);
    let report = Report { out, err: Vec::new(), failure: None };
    assert(report@.out =~= seq![header@]);
    assert(report@.err =~= seq![]);
    report
}

/// Adds a line to standard output.
fn say(report: &mut Report, line: String)
    ensures
        final(report)@ == (ReportView { out: old(report)@.out.push(line@), ..old(report)@ }),
{
    report.out.push(line);
    assert(final(report)@.out =~= old(report)@.out.push(line@));
}

/// Adds a line to standard error.
fn warn(report: &mut Report, line: String)
    ensures
        final(report)@ == (ReportView { err: old(report)@.err.push(line@), ..old(report)@ }),
{
    report.err.push(line);
    assert(final(report)@.err =~= old(report)@.err.push(line@));
}

/// Ends a report with a failure: its message on standard error.
fn fail(header: String, error: TaskError) -> (report: Report)
    ensures
        report@ == failed(header@, error@),
{
    let mut report = opened(header);
    warn(&mut report, error.message());
    report.failure = Some(error);
    assert(report@.err =~= seq![message_of(error@)]);
    report
}

/// The report of an `Add` whose task operation gave `outcome`.
pub fn report_add(name: &str, dry_test: bool, outcome: Result<Task, TaskError>) -> (report: Report)
    ensures
        report@ == add_report(name@, dry_test, outcome),
{
    let mut header = String::from_str("Add task ");
    header.append(name);
    header.append(" ");
    header.append(mode_str(dry_test));
    match outcome {
        Ok(_) => opened(header),
        Err(error) => fail(header, error),
    }
}

/// The line that announces an `Update`.
fn update_heading(id: u32, done: &str, dry_test: bool) -> (header: String)
    ensures
        header@ == update_header(id, done@, dry_test),
{
    let mut header = String::from_str("Update task ");
    push_decimal(&mut header, id);
    header.append(" with done status: ");
    header.append(done);
    header.append(" ");
    header.append(mode_str(dry_test));
    header
}

/// The report of an `Update` whose done word is neither `true` nor `false`.
pub fn report_bad_flag(id: u32, done: &str, dry_test: bool) -> (report: Report)
    ensures
        report@ == bad_flag_report(id, done@, dry_test),
{
    let mut report = opened(update_heading(id, done, dry_test));
    warn(
        &mut report,
        String::from_str("Invalid value for done status. Expected 'true' or 'false'"),
    );
    assert(report@.err =~= seq!["Invalid value for done status. Expected 'true' or 'false'"@]);
    report
}

/// The report of an `Update` whose task operation gave `outcome`.
pub fn report_update(id: u32, done: &str, dry_test: bool, outcome: Result<Task, TaskError>) -> (report:
    Report)
    ensures
        report@ == update_report(id, done@, dry_test, outcome),
{
    let header = update_heading(id, done, dry_test);
    match outcome {
        Ok(task) => {
            let mut report = opened(header);
            say(&mut report, task.log());
            assert(report@.out =~= seq![update_header(id, done@, dry_test), line_of(task@)]);
            report
        },
        Err(error) => fail(header, error),
    }
}

/// The report of a `Get` whose task operation gave `outcome`.
pub fn report_list(dry_test: bool, outcome: Result<Vec<Task>, TaskError>) -> (report: Report)
    ensures
        report@ == list_report(dry_test, outcome),
{
    let mut header = String::from_str("List tasks ");
    header.append(mode_str(dry_test));
    match outcome {
        Ok(tasks) => {
            let mut report = opened(header);
            let ghost lines = tasks@.map_values(|t: Task| line_of(t@));
            let mut i: usize = 0;
            assert(report@.out =~= seq![list_header(dry_test)] + lines.take(0));
            while i < tasks.len()
                invariant
                    i <= tasks.len(),
                    lines == tasks@.map_values(|t: Task| line_of(t@)),
                    report@.out == seq![list_header(dry_test)] + lines.take(i as int),
                    report@.err == Seq::<Seq<char>>::empty(),
                    report@.failure is None,
                decreases tasks.len() - i,
            {
                say(&mut report, tasks[i].log());
                assert((seq![list_header(dry_test)] + lines.take(i as int)).push(lines[i as int])
                    =~= seq![list_header(dry_test)] + lines.take(i + 1));
                i = i + 1;
            }
            assert(lines.take(tasks.len() as int) =~= lines);
            report
        },
        Err(error) => fail(header, error),
    }
}

/// The report of a `Delete` whose task operation gave `outcome`.
pub fn report_delete(id: u32, dry_test: bool, outcome: Result<Task, TaskError>) -> (report: Report)
    ensures
        report@ == delete_report(id, dry_test, outcome),
{
    let mut header = String::from_str("Delete task ");
    push_decimal(&mut header, id);
    header.append(" with id ");
    header.append(mode_str(dry_test));
    let mut report = opened(header);
    match outcome {
        Ok(task) => {
            say(&mut report, String::from_str("Task deleted successfully"));
            say(&mut report, task.log());
            assert(report@.out =~= seq![
                delete_header(id, dry_test),
                "Task deleted successfully"@,
                line_of(task@),
            ]);
        },
        Err(error) => {
            let mut line = String::from_str("Error deleting task: ");
            line.append(error.message().as_str());
            warn(&mut report, line);
            assert(report@.err =~= seq!["Error deleting task: "@ + message_of(error@)]);
            match error {
                TaskError::NotFound => {
                    say(&mut report, TaskError::NotFound.message());
                    assert(report@.out =~= seq![
                        delete_header(id, dry_test),
                        message_of(Failure::NotFound),
                    ]);
                },
                _ => {
                    report.failure = Some(error);
                },
            }
        },
    }
    report
}

/// Runs the command in `args` on the store behind `conn`: one task operation,
/// and the report of what it gave.
pub fn command_switch(args: Args, conn: &mut Connection) -> (report: Report)
    ensures
        switched(args.cmd, *old(conn), *final(conn), report@),
{
    match args.cmd {
        Commands::Add { name, dry_test } => {
            let outcome = insert_task(conn, name.clone());
            report_add(name.as_str(), dry_test, outcome)
        },
        Commands::Update { id, done, dry_test } => {
            match parse_done(done.as_str()) {
                Some(flag) => {
                    let outcome = update_task_status(conn, id, flag);
                    report_update(id, done.as_str(), dry_test, outcome)
                },
                None => report_bad_flag(id, done.as_str(), dry_test),
            }
        },
        Commands::Get { dry_test } => {
            let outcome = read_tasks(conn);
            report_list(dry_test, outcome)
        },
        Commands::Delete { id, dry_test } => {
            let outcome = delete_task(conn, id);
            report_delete(id, dry_test, outcome)
        },
    }
}

} // verus!
