//! Shared pieces of the migration core: the outcome type of a single
//! migration, validation of a migration root path, the text of the tracking
//! statements, and the per-migration executor state machine.
//!
//! The executor is phrased as a state machine because every database
//! operation of the protocol is performed by an unverified driver: the
//! machine names the statement to run next, the driver runs it and reports
//! what happened as a [`DbEvent`], and the machine decides the next step.
//! The transition relation is the spec function [`step_spec`], which the
//! executable `step` is proved to follow exactly.

use vstd::prelude::*;
use vstd::string::*;

use crate::errors::LibsqlDirMigratorError;
use crate::errors::LibsqlMigratorBaseError;

verus! {

/// Outcome of applying one migration.
#[derive(Debug, Clone, Copy, PartialEq, Eq, Structural)]
pub enum MigrationResult {
    /// The script body ran to completion during this call.
    Executed,
    /// The id was already recorded as executed; the script was not run.
    AlreadyExecuted,
}

// ---------------------------------------------------------------------------
// Path text: file name and extension of a `/`-separated path.
// ---------------------------------------------------------------------------
/// The final component of a `/`-separated path: the suffix after the last
/// `/`, or the whole path when it contains none.
pub open spec fn file_name_of(p: Seq<char>) -> Seq<char>
    decreases p.len(),
{
    if p.len() == 0 {
        p
    } else if p.last() == '/' {
        Seq::empty()
    } else {
        file_name_of(p.drop_last()).push(p.last())
    }
}

/// The extension of a file name: the part after the last `.`, provided that
/// dot is not the leading character. A name without such a dot has none.
pub open spec fn extension_of(name: Seq<char>) -> Option<Seq<char>>
    decreases name.len(),
{
    if name.len() <= 1 {
        None
    } else if name.last() == '.' {
        Some(Seq::empty())
    } else {
        match extension_of(name.drop_last()) {
            Some(e) => Some(e.push(name.last())),
            None => None,
        }
    }
}

/// The path names a file whose extension is exactly `sql`.
pub open spec fn has_sql_extension_spec(p: Seq<char>) -> bool {
    extension_of(file_name_of(p)) == Some("sql"@)
}

proof fn lemma_file_name_suffix(p: Seq<char>, k: int)
    requires
        0 <= k <= p.len(),
        forall|j: int| k <= j < p.len() ==> p[j] != '/',
        k == 0 || p[k - 1] == '/',
    ensures
        file_name_of(p) == p.subrange(k, p.len() as int),
    decreases p.len(),
{
    if p.len() == 0 {
        assert(file_name_of(p) =~= p.subrange(k, p.len() as int));
    } else if k == p.len() {
        assert(p.last() == '/');
        assert(file_name_of(p) =~= p.subrange(k, p.len() as int));
    } else {
        assert(p.last() != '/');
        let q = p.drop_last();
        lemma_file_name_suffix(q, k);
        assert(file_name_of(p) == file_name_of(q).push(p.last()));
        assert(file_name_of(p) =~= p.subrange(k, p.len() as int));
    }
}

proof fn lemma_extension_suffix(name: Seq<char>, j: int)
    requires
        1 <= j < name.len(),
        name[j] == '.',
        forall|l: int| j < l < name.len() ==> name[l] != '.',
    ensures
        extension_of(name) == Some(name.subrange(j + 1, name.len() as int)),
    decreases name.len(),
{
    if j == name.len() - 1 {
        assert(name.last() == '.');
        assert(extension_of(name) == Some(Seq::<char>::empty()));
        assert(Seq::<char>::empty() =~= name.subrange(j + 1, name.len() as int));
    } else {
        assert(name.last() != '.');
        let q = name.drop_last();
        lemma_extension_suffix(q, j);
        assert(extension_of(name) == Some(q.subrange(j + 1, q.len() as int).push(name.last())));
        assert(q.subrange(j + 1, q.len() as int).push(name.last()) =~= name.subrange(
            j + 1,
            name.len() as int,
        ));
    }
}

proof fn lemma_extension_none(name: Seq<char>)
    requires
        forall|l: int| 1 <= l < name.len() ==> name[l] != '.',
    ensures
        extension_of(name) is None,
    decreases name.len(),
{
    if name.len() <= 1 {
    } else {
        assert(name.last() != '.');
        lemma_extension_none(name.drop_last());
    }
}

/// Executable counterpart of [`file_name_of`].
pub fn file_name(p: &str) -> (r: String)
    ensures
        r@ == file_name_of(p@),
{
    let len = p.unicode_len();
    let mut k: usize = len;
    let mut stop = false;
    while !stop
        invariant
            k <= len,
            len == p@.len(),
            forall|j: int| k <= j < len ==> p@[j] != '/',
            stop ==> (k == 0 || p@[k - 1] == '/'),
        decreases (if stop { 0int } else { k + 1 }),
    {
        if k == 0 {
            stop = true;
        } else if p.get_char(k - 1) == '/' {
            stop = true;
        } else {
            k = k - 1;
        }
    }
    proof {
        lemma_file_name_suffix(p@, k as int);
    }
    p.substring_char(k, len).to_owned()
}

/// Executable counterpart of [`extension_of`].
pub fn extension(name: &str) -> (r: Option<String>)
    ensures
        match extension_of(name@) {
            Some(e) => r matches Some(s) && s@ == e,
            None => r is None,
        },
{
    let len = name.unicode_len();
    let mut k: usize = len;
    let mut found = false;
    let mut stop = false;
    while !stop
        invariant
            k <= len,
            len == name@.len(),
            forall|j: int| k <= j < len ==> name@[j] != '.',
            !stop ==> !found,
            stop && found ==> 2 <= k && name@[k - 1] == '.',
            stop && !found ==> k <= 1,
        decreases (if stop { 0int } else { k + 1 }),
    {
        if k <= 1 {
            stop = true;
        } else if name.get_char(k - 1) == '.' {
            found = true;
            stop = true;
        } else {
            k = k - 1;
        }
    }
    if found {
        proof {
            lemma_extension_suffix(name@, k as int - 1);
        }
        Some(name.substring_char(k, len).to_owned())
    } else {
        proof {
            lemma_extension_none(name@);
        }
        None
    }
}

/// Executable counterpart of [`has_sql_extension_spec`].
pub fn has_sql_extension(p: &str) -> (r: bool)
    ensures
        r == has_sql_extension_spec(p@),
{
    let name = file_name(p);
    match extension(name.as_str()) {
        Some(e) => {
            let sql = String::from_str("sql");
            e == sql
        },
        None => false,
    }
}

// ---------------------------------------------------------------------------
// Validation of the migration root path.
// ---------------------------------------------------------------------------
/// What the driver observed about the migration root path on disk.
#[derive(Debug, Clone)]
pub struct PathStatus {
    /// The path as given by the caller.
    pub path: String,
    /// The path exists.
    pub exists: bool,
    /// The path is a directory.
    pub is_dir: bool,
    /// The path is a regular file.
    pub is_file: bool,
}

/// The path may serve as a migration root: it exists and is either a
/// directory or a single file with the recognized script extension.
pub open spec fn acceptable_root(st: PathStatus) -> bool {
    st.exists && (st.is_dir || (st.is_file && has_sql_extension_spec(st.path@)))
}

/// Decides whether a path may serve as a migration root, from what the
/// driver observed about it. Rejects a path that does not exist, and one
/// that exists but is neither a directory nor a single `sql` file.
pub fn validate_migration_folder(status: &PathStatus) -> (r: Result<(), LibsqlDirMigratorError>)
    ensures
        r is Ok <==> acceptable_root(*status),
        !status.exists ==> (r matches Err(LibsqlDirMigratorError::MigrationDirNotFound(p))
            && p@ == status.path@),
        status.exists && !acceptable_root(*status) ==> (r matches Err(
            LibsqlDirMigratorError::InvalidMigrationPath(p),
        ) && p@ == status.path@),
{
    if !status.exists {
        return Err(LibsqlDirMigratorError::MigrationDirNotFound(status.path.clone()));
    }
    if status.is_dir || (status.is_file && has_sql_extension(status.path.as_str())) {
        Ok(())
    } else {
        Err(LibsqlDirMigratorError::InvalidMigrationPath(status.path.clone()))
    }
}

// ---------------------------------------------------------------------------
// The tracking statements.
// ---------------------------------------------------------------------------
/// Text of the statement that lazily creates the tracking table.
pub open spec fn create_table_sql_spec() -> Seq<char> {
    "CREATE TABLE IF NOT EXISTS libsql_migrations (id TEXT PRIMARY KEY, status BOOLEAN DEFAULT false, exec_time TIMESTAMP);"@
}

/// Text of the statement that reads the status of one id; the driver binds
/// the id as its single parameter.
pub open spec fn lookup_sql_spec() -> Seq<char> {
    "SELECT status FROM libsql_migrations WHERE id = ?;"@
}

/// Text of the statement that inserts a pending row for an id, silently
/// doing nothing when the row exists; the driver binds the id.
pub open spec fn mark_pending_sql_spec() -> Seq<char> {
    "INSERT INTO libsql_migrations (id) VALUES (?) ON CONFLICT(id) DO NOTHING"@
}

/// Text of the statement that marks an id executed with a server-side
/// timestamp; the driver binds the id.
pub open spec fn mark_executed_sql_spec() -> Seq<char> {
    "UPDATE libsql_migrations SET status = true, exec_time = CURRENT_TIMESTAMP WHERE id = ?"@
}

/// The statement that lazily creates the tracking table.
pub fn create_migration_table_sql() -> (r: String)
    ensures
        r@ == create_table_sql_spec(),
{
    String::from_str(
        "CREATE TABLE IF NOT EXISTS libsql_migrations (id TEXT PRIMARY KEY, status BOOLEAN DEFAULT false, exec_time TIMESTAMP);",
    )
}

/// The statement that reads the status of one id.
pub fn lookup_status_sql() -> (r: String)
    ensures
        r@ == lookup_sql_spec(),
{
    String::from_str("SELECT status FROM libsql_migrations WHERE id = ?;")
}

/// The statement that inserts a pending row for an id.
pub fn mark_pending_sql() -> (r: String)
    ensures
        r@ == mark_pending_sql_spec(),
{
    String::from_str("INSERT INTO libsql_migrations (id) VALUES (?) ON CONFLICT(id) DO NOTHING")
}

/// The statement that marks an id executed.
pub fn mark_executed_sql() -> (r: String)
    ensures
        r@ == mark_executed_sql_spec(),
{
    String::from_str(
        "UPDATE libsql_migrations SET status = true, exec_time = CURRENT_TIMESTAMP WHERE id = ?",
    )
}

// ---------------------------------------------------------------------------
// The executor state machine.
// ---------------------------------------------------------------------------
/// One database operation the driver is asked to perform.
#[derive(Debug, Clone, Copy, PartialEq, Eq, Structural)]
pub enum ExecAction {
    /// Run [`create_migration_table_sql`].
    EnsureSchema,
    /// Run [`lookup_status_sql`] with the migration id bound, and report the
    /// status of the row, if any.
    Lookup,
    /// Run [`mark_pending_sql`] with the migration id bound.
    MarkPending,
    /// Run the migration script verbatim.
    RunScript,
    /// Run [`mark_executed_sql`] with the migration id bound.
    MarkExecuted,
}

/// What the driver reports back after performing an action.
#[derive(Debug, Clone)]
pub enum DbEvent {
    /// The statement succeeded; used for every action but [`ExecAction::Lookup`].
    Done,
    /// The lookup found a row; the payload is its executed status.
    Found(bool),
    /// The lookup found no row for the id.
    NotFound,
    /// The database reported an error; the payload is its message.
    Failed(String),
}

/// Decides what the lookup reported, from the row the driver read: no row
/// means the id was never seen; a row whose status cell holds the integer 1
/// means executed; a row with any other status cell — 0, false's default, or
/// a cell of another kind — means recorded but not executed. The driver
/// passes the status cell as `Some(n)` for an integer cell and `None`
/// otherwise.
pub fn lookup_event(row: Option<Option<i64>>) -> (r: DbEvent)
    ensures
        row is None ==> r is NotFound,
        row matches Some(cell) ==> (r matches DbEvent::Found(executed) && executed == (cell
            == Some(1i64))),
{
    match row {
        None => DbEvent::NotFound,
        Some(Some(1i64)) => DbEvent::Found(true),
        Some(_) => DbEvent::Found(false),
    }
}

/// Progress of the executor through one migration.
#[derive(Debug, Clone)]
pub enum ExecPhase {
    /// Waiting for the tracking table to be created if absent.
    EnsuringSchema,
    /// Waiting for the status of the id to be read.
    LookingUp,
    /// Waiting for the pending row to be inserted.
    MarkingPending,
    /// Waiting for the script body to run.
    RunningScript,
    /// Waiting for the row to be marked executed.
    MarkingExecuted,
    /// The migration is done, with this outcome.
    Complete(MigrationResult),
    /// The database failed; the payload is the driver's message.
    Failed(String),
}

/// The machine still awaits a database operation.
pub open spec fn in_progress(p: ExecPhase) -> bool {
    !(p is Complete) && !(p is Failed)
}

/// The action awaited in each phase, none once terminal.
pub open spec fn action_for(p: ExecPhase) -> Option<ExecAction> {
    match p {
        ExecPhase::EnsuringSchema => Some(ExecAction::EnsureSchema),
        ExecPhase::LookingUp => Some(ExecAction::Lookup),
        ExecPhase::MarkingPending => Some(ExecAction::MarkPending),
        ExecPhase::RunningScript => Some(ExecAction::RunScript),
        ExecPhase::MarkingExecuted => Some(ExecAction::MarkExecuted),
        ExecPhase::Complete(_) => None,
        ExecPhase::Failed(_) => None,
    }
}

/// The event is a possible report on the action awaited in phase `p`.
pub open spec fn event_fits(p: ExecPhase, ev: DbEvent) -> bool {
    match ev {
        DbEvent::Done => p is EnsuringSchema || p is MarkingPending || p is RunningScript
            || p is MarkingExecuted,
        DbEvent::Found(_) => p is LookingUp,
        DbEvent::NotFound => p is LookingUp,
        DbEvent::Failed(_) => in_progress(p),
    }
}

/// The transition relation of the executor: the phase after the driver
/// reports `ev` while the machine is in phase `p`. A failure aborts from any
/// phase; a found executed row short-circuits to `AlreadyExecuted`; a found
/// pending row skips straight to running the script; an absent row is first
/// recorded as pending.
pub open spec fn step_spec(p: ExecPhase, ev: DbEvent) -> ExecPhase {
    match ev {
        DbEvent::Failed(m) => ExecPhase::Failed(m),
        DbEvent::Found(executed) => if p is LookingUp {
            if executed {
                ExecPhase::Complete(MigrationResult::AlreadyExecuted)
            } else {
                ExecPhase::RunningScript
            }
        } else {
            p
        },
        DbEvent::NotFound => if p is LookingUp {
            ExecPhase::MarkingPending
        } else {
            p
        },
        DbEvent::Done => match p {
            ExecPhase::EnsuringSchema => ExecPhase::LookingUp,
            ExecPhase::MarkingPending => ExecPhase::RunningScript,
            ExecPhase::RunningScript => ExecPhase::MarkingExecuted,
            ExecPhase::MarkingExecuted => ExecPhase::Complete(MigrationResult::Executed),
            _ => p,
        },
    }
}

/// The executor: applies exactly one migration, idempotently, against one
/// connection held by the driver.
#[derive(Debug)]
pub struct Executor {
    /// The migration's stable identifier.
    pub id: String,
    /// The migration's SQL text, run verbatim.
    pub script: String,
    /// Where the machine stands.
    pub phase: ExecPhase,
}

impl Executor {
    /// Begins one migration. The first action asked of the driver is to
    /// ensure the tracking schema exists.
    pub fn new(id: String, script: String) -> (e: Executor)
        ensures
            e.id == id,
            e.script == script,
            e.phase is EnsuringSchema,
    {
        Executor { id, script, phase: ExecPhase::EnsuringSchema }
    }

    /// The database operation the driver must perform next, or `None` once
    /// the migration is complete or failed.
    pub fn current_action(&self) -> (r: Option<ExecAction>)
        ensures
            r == action_for(self.phase),
    {
        match &self.phase {
            ExecPhase::EnsuringSchema => Some(ExecAction::EnsureSchema),
            ExecPhase::LookingUp => Some(ExecAction::Lookup),
            ExecPhase::MarkingPending => Some(ExecAction::MarkPending),
            ExecPhase::RunningScript => Some(ExecAction::RunScript),
            ExecPhase::MarkingExecuted => Some(ExecAction::MarkExecuted),
            ExecPhase::Complete(_) => None,
            ExecPhase::Failed(_) => None,
        }
    }

    /// The SQL text of the pending operation, or `None` once terminal. For
    /// every action but `RunScript` this is one of the fixed tracking
    /// statements; for `RunScript` it is the script itself.
    pub fn action_sql(&self) -> (r: Option<String>)
        ensures
            match action_for(self.phase) {
                Some(a) => r matches Some(s) && s@ == sql_for_action(a, self.script@),
                None => r is None,
            },
    {
        match &self.phase {
            ExecPhase::EnsuringSchema => Some(create_migration_table_sql()),
            ExecPhase::LookingUp => Some(lookup_status_sql()),
            ExecPhase::MarkingPending => Some(mark_pending_sql()),
            ExecPhase::RunningScript => Some(self.script.clone()),
            ExecPhase::MarkingExecuted => Some(mark_executed_sql()),
            ExecPhase::Complete(_) => None,
            ExecPhase::Failed(_) => None,
        }
    }

    /// Advances the machine by one driver report. The new phase is exactly
    /// [`step_spec`] of the old phase and the event; the id and script never
    /// change.
    pub fn step(&mut self, ev: DbEvent)
        requires
            event_fits(old(self).phase, ev),
        ensures
            final(self).phase == step_spec(old(self).phase, ev),
            final(self).id == old(self).id,
            final(self).script == old(self).script,
    {
        let next = match ev {
            DbEvent::Failed(m) => ExecPhase::Failed(m),
            DbEvent::Found(executed) => if executed {
                ExecPhase::Complete(MigrationResult::AlreadyExecuted)
            } else {
                ExecPhase::RunningScript
            },
            DbEvent::NotFound => ExecPhase::MarkingPending,
            DbEvent::Done => match &self.phase {
                ExecPhase::EnsuringSchema => ExecPhase::LookingUp,
                ExecPhase::MarkingPending => ExecPhase::RunningScript,
                ExecPhase::RunningScript => ExecPhase::MarkingExecuted,
                _ => ExecPhase::Complete(MigrationResult::Executed),
            },
        };
        self.phase = next;
    }

    /// The terminal result: the outcome of a complete migration, the
    /// database failure of an aborted one, and `None` while in progress.
    pub fn finish(&self) -> (r: Option<Result<MigrationResult, LibsqlMigratorBaseError>>)
        ensures
            self.phase matches ExecPhase::Complete(m) ==> r == Some(
                Result::<MigrationResult, LibsqlMigratorBaseError>::Ok(m),
            ),
            self.phase matches ExecPhase::Failed(msg) ==> (r matches Some(Err(
                LibsqlMigratorBaseError::LibSqlError(e),
            )) && e@ == msg@),
            in_progress(self.phase) ==> r is None,
    {
        match &self.phase {
            ExecPhase::Complete(m) => Some(Ok(*m)),
            ExecPhase::Failed(msg) => Some(Err(LibsqlMigratorBaseError::LibSqlError(msg.clone()))),
            _ => None,
        }
    }
}

/// The SQL text belonging to each action, given the migration's script.
pub open spec fn sql_for_action(a: ExecAction, script: Seq<char>) -> Seq<char> {
    match a {
        ExecAction::EnsureSchema => create_table_sql_spec(),
        ExecAction::Lookup => lookup_sql_spec(),
        ExecAction::MarkPending => mark_pending_sql_spec(),
        ExecAction::RunScript => script,
        ExecAction::MarkExecuted => mark_executed_sql_spec(),
    }
}

} // verus!
