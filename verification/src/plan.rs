//! Resolving one diary run: where the diary lives, which file and heading the
//! target date gives, which editor to launch, and what to do after the editor
//! and around the optional git commit.

use vstd::prelude::*;

use crate::date::{spec_target_date, target_date, Date, LocalTime};
use crate::naming::{monthly_filename, spec_heading, spec_monthly_filename};
use crate::naming::heading_line;

verus! {

/// The three environment overrides a run starts from, each one optional.
pub struct Config {
    /// Overrides the diary directory (the `DIARY_DIR` variable).
    pub diary_dir: Option<String>,
    /// Overrides the editor, checked first (the `DIARY_EDITOR` variable).
    pub diary_editor: Option<String>,
    /// The fallback editor override (the `EDITOR` variable).
    pub editor: Option<String>,
}

/// Everything the run needs once the environment has been read: the target
/// date, the diary directory, the monthly file's full path, the day's heading
/// and the editor command.
pub struct RunPlan {
    pub date: Date,
    pub diary_dir: String,
    pub diary_file: String,
    pub heading: String,
    pub editor: String,
}

/// A fatal error while resolving the run.
#[derive(Clone, Copy, PartialEq, Eq, Structural, Debug)]
pub enum SetupError {
    /// No diary directory override is set and no home directory was found.
    NoHomeDirectory,
}

/// What to do once the editor has exited.
#[derive(Clone, Copy, PartialEq, Eq, Structural, Debug)]
pub enum AfterEditor {
    /// The editor failed: report it and stop before any git work.
    ReportEditorFailure,
    /// The editor succeeded but the diary is no git repository: stop quietly.
    SkipGit,
    /// The editor succeeded and the diary is a git repository: commit.
    RunGit,
}

/// The git commands of the auto-commit step.
#[derive(Clone, Copy, PartialEq, Eq, Structural, Debug)]
pub enum GitCommand {
    Add,
    Commit,
}

/// A git command that exited with a non-success status.
#[derive(Clone, Copy, PartialEq, Eq, Structural, Debug)]
pub enum GitError {
    AddFailed,
    CommitFailed,
}

/// The editor a run uses: the first of the two overrides that is set, else
/// "vim".
pub open spec fn spec_editor(cfg: Config) -> Seq<char> {
    match cfg.diary_editor {
        Option::Some(e) => e@,
        Option::None => match cfg.editor {
            Option::Some(e) => e@,
            Option::None => "vim"@,
        },
    }
}

/// The diary directory a run uses: the override when set, else "diary" under
/// the home directory, else nothing.
pub open spec fn spec_diary_dir(cfg: Config, home: Option<String>) -> Option<Seq<char>> {
    match cfg.diary_dir {
        Option::Some(d) => Option::Some(d@),
        Option::None => match home {
            Option::Some(h) => Option::Some(h@ + "/diary"@),
            Option::None => Option::None,
        },
    }
}

/// A run plan agrees with a configuration, a home directory and a timestamp:
/// the date follows the 14-o'clock rule, the directory is the resolved one,
/// the file is the monthly file inside it, and heading and editor match.
pub open spec fn plan_matches(p: RunPlan, cfg: Config, home: Option<String>, t: LocalTime) -> bool {
    &&& p.date == spec_target_date(t)
    &&& Option::Some(p.diary_dir@) == spec_diary_dir(cfg, home)
    &&& p.diary_file@ == p.diary_dir@ + "/"@ + spec_monthly_filename(p.date)
    &&& p.heading@ == spec_heading(p.date)
    &&& p.editor@ == spec_editor(cfg)
}

/// What to do after the editor exits, given whether it succeeded and whether
/// the diary directory holds a git repository.
pub open spec fn spec_after_editor(editor_ok: bool, git_repo: bool) -> AfterEditor {
    if !editor_ok {
        AfterEditor::ReportEditorFailure
    } else if !git_repo {
        AfterEditor::SkipGit
    } else {
        AfterEditor::RunGit
    }
}

impl SetupError {
    /// The message the run reports for this error.
    pub fn message(&self) -> (r: &'static str)
        ensures
            r@ == "i couldn't find your home directory"@,
    {
        "i couldn't find your home directory"
    }
}

impl GitError {
    /// The message the run reports for this error.
    pub fn message(&self) -> (r: &'static str)
        ensures
            *self == GitError::AddFailed ==> r@ == "failed to run `git add`"@,
            *self == GitError::CommitFailed ==> r@ == "failed to commit"@,
    {
        match self {
            GitError::AddFailed => "failed to run `git add`",
            GitError::CommitFailed => "failed to commit",
        }
    }
}

/// The default diary directory under a home directory.
pub fn get_default_diary_path(home: &String) -> (r: String)
    ensures
        r@ == home@ + "/diary"@,
{
    let mut s = home.clone();
    s.append("/diary");
    proof {
        reveal_strlit("/diary");
    }
    s
}

/// Joins a directory and a file name with a path separator.
pub fn join_path(dir: &String, name: &String) -> (r: String)
    ensures
        r@ == dir@ + "/"@ + name@,
{
    let mut s = dir.clone();
    s.append("/");
    s.append(name.as_str());
    proof {
        reveal_strlit("/");
        assert(s@ =~= dir@ + "/"@ + name@);
    }
    s
}

/// Picks the editor command: `DIARY_EDITOR`, else `EDITOR`, else "vim".
pub fn resolve_editor(cfg: &Config) -> (r: String)
    ensures
        r@ == spec_editor(*cfg),
{
    match &cfg.diary_editor {
        Option::Some(e) => e.clone(),
        Option::None => match &cfg.editor {
            Option::Some(e) => e.clone(),
            Option::None => String::from_str("vim"),
        },
    }
}

/// Resolves the whole run from already-read environment values: the directory
/// override, the home directory and the local timestamp. Fails exactly when
/// neither a directory override nor a home directory exists.
pub fn prepare(cfg: &Config, home: &Option<String>, t: LocalTime) -> (r: Result<RunPlan, SetupError>)
    requires
        t.wf(),
    ensures
        match r {
            Result::Ok(p) => spec_diary_dir(*cfg, *home) is Some && plan_matches(p, *cfg, *home, t)
                && p.date.wf(),
            Result::Err(e) => spec_diary_dir(*cfg, *home) is None && e
                == SetupError::NoHomeDirectory,
        },
{
    let dir: String = match &cfg.diary_dir {
        Option::Some(d) => d.clone(),
        Option::None => match home {
            Option::Some(h) => get_default_diary_path(h),
            Option::None => {
                return Result::Err(SetupError::NoHomeDirectory);
            },
        },
    };
    let date = target_date(t);
    let filename = monthly_filename(date);
    let diary_file = join_path(&dir, &filename);
    let heading = heading_line(date);
    let editor = resolve_editor(cfg);
    Result::Ok(RunPlan { date, diary_dir: dir, diary_file, heading, editor })
}

/// Relies on chrono's `Local::now` and its `Datelike`/`Timelike` accessors:
/// the month is 1 to 12, the day is a valid day of that month (a `NaiveDate`
/// holds only valid proleptic Gregorian dates), the hour is 0 to 23, and the
/// year lies in `NaiveDate`'s supported range.
#[verifier::external_body]
fn local_now() -> (t: LocalTime)
    ensures
        t.wf(),
{
    let now = chrono::Local::now();
    LocalTime {
        year: chrono::Datelike::year(&now),
        month: chrono::Datelike::month(&now),
        day: chrono::Datelike::day(&now),
        hour: chrono::Timelike::hour(&now),
    }
}

/// Relies on dirs::home_dir: the user's home directory if the system reports
/// one. A path that is not valid UTF-8 is treated as no home directory.
#[verifier::external_body]
fn home_dir_string() -> (r: Option<String>)
{
    dirs::home_dir().and_then(|p| p.to_str().map(|s| s.to_string()))
}

/// Resolves the whole run from the live environment: reads the local clock
/// and the home directory and hands them to `prepare`. Succeeds whenever a
/// directory override is set, whatever the clock and the home lookup return.
pub fn prepare_from_environment(cfg: &Config) -> (r: Result<RunPlan, SetupError>)
    ensures
        cfg.diary_dir is Some ==> r is Ok,
        r matches Result::Ok(p) ==> p.date.wf() && exists|t: LocalTime, home: Option<String>|
            t.wf() && plan_matches(p, *cfg, home, t),
        r matches Result::Err(e) ==> cfg.diary_dir is None && e == SetupError::NoHomeDirectory,
{
    let t = local_now();
    let home = home_dir_string();
    let r = prepare(cfg, &home, t);
    proof {
        if r is Ok {
            let p = r->Ok_0;
            assert(t.wf() && plan_matches(p, *cfg, home, t));
        }
    }
    r
}

/// Decides the step after the editor: report a failed editor, skip git when
/// the diary is no repository, or run the auto-commit.
pub fn plan_after_editor(editor_ok: bool, git_repo: bool) -> (r: AfterEditor)
    ensures
        r == spec_after_editor(editor_ok, git_repo),
{
    if !editor_ok {
        AfterEditor::ReportEditorFailure
    } else if !git_repo {
        AfterEditor::SkipGit
    } else {
        AfterEditor::RunGit
    }
}

/// Judges one git command's exit: success passes, a non-success exit is the
/// fatal error named after the command.
pub fn git_command_outcome(cmd: GitCommand, exit_ok: bool) -> (r: Result<(), GitError>)
    ensures
        exit_ok <==> r is Ok,
        !exit_ok && cmd == GitCommand::Add ==> r == Result::<(), GitError>::Err(
            GitError::AddFailed,
        ),
        !exit_ok && cmd == GitCommand::Commit ==> r == Result::<(), GitError>::Err(
            GitError::CommitFailed,
        ),
{
    if exit_ok {
        Result::Ok(())
    } else {
        match cmd {
            GitCommand::Add => Result::Err(GitError::AddFailed),
            GitCommand::Commit => Result::Err(GitError::CommitFailed),
        }
    }
}

} // verus!
