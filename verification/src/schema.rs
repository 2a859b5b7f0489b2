//! Bringing the history database to the current schema: which statement to
//! run at each step, and which step follows, given the database's schema
//! version and whether each probe for a column succeeded.

use vstd::prelude::*;

verus! {

/// A step of bringing the database to the current schema.
#[derive(Clone, Copy, Debug, PartialEq, Eq, Structural)]
pub enum SchemaStep {
    /// Create the history table, where it is missing.
    CreateTable,
    /// Probe for the column of completion.
    ProbeCompleted,
    /// Add the column of completion.
    AddCompleted,
    /// Mark the sessions that ran their planned length as completed.
    MarkCompleted,
    /// Record schema version one.
    SetVersionOne,
    /// Probe for the column of categories.
    ProbeCategory,
    /// Add the column of categories.
    AddCategory,
    /// Record schema version two.
    SetVersionTwo,
    /// The schema is current.
    Done,
}

/// What the caller does at a step.
#[derive(Clone, Copy, Debug, PartialEq, Eq, Structural)]
pub enum StepKind {
    /// Execute the statement; when it fails, print the error after the
    /// step's message and go on.
    RunReporting,
    /// Execute the statement; when it fails, go on.
    RunIgnoring,
    /// Execute the statement; when it fails, stop with its error.
    RunFailing,
    /// Prepare the statement, and hand back whether that succeeded.
    Probe,
    /// Nothing is left to do.
    Finish,
}

/// The first step for a database at schema version `user_version`.
pub open spec fn first_step(user_version: i32) -> SchemaStep {
    if user_version < 1 {
        SchemaStep::CreateTable
    } else if user_version < 2 {
        SchemaStep::ProbeCategory
    } else {
        SchemaStep::Done
    }
}

/// The step after `step`; `probe_ok` says whether the probe of a probing
/// step succeeded: a column that is there is not added again.
pub open spec fn step_after(step: SchemaStep, probe_ok: bool) -> SchemaStep {
    match step {
        SchemaStep::CreateTable => SchemaStep::ProbeCompleted,
        SchemaStep::ProbeCompleted => if probe_ok {
            SchemaStep::SetVersionOne
        } else {
            SchemaStep::AddCompleted
        },
        SchemaStep::AddCompleted => SchemaStep::MarkCompleted,
        SchemaStep::MarkCompleted => SchemaStep::SetVersionOne,
        SchemaStep::SetVersionOne => SchemaStep::ProbeCategory,
        SchemaStep::ProbeCategory => if probe_ok {
            SchemaStep::SetVersionTwo
        } else {
            SchemaStep::AddCategory
        },
        SchemaStep::AddCategory => SchemaStep::SetVersionTwo,
        SchemaStep::SetVersionTwo => SchemaStep::Done,
        SchemaStep::Done => SchemaStep::Done,
    }
}

/// What the caller does at a step.
pub open spec fn kind_of(step: SchemaStep) -> StepKind {
    match step {
        SchemaStep::CreateTable | SchemaStep::AddCompleted => StepKind::RunReporting,
        SchemaStep::MarkCompleted | SchemaStep::SetVersionOne => StepKind::RunIgnoring,
        SchemaStep::AddCategory | SchemaStep::SetVersionTwo => StepKind::RunFailing,
        SchemaStep::ProbeCompleted | SchemaStep::ProbeCategory => StepKind::Probe,
        SchemaStep::Done => StepKind::Finish,
    }
}

/// The statement of a step; empty for the last.
pub open spec fn sql_of(step: SchemaStep) -> Seq<char> {
    match step {
        SchemaStep::CreateTable => "CREATE TABLE IF NOT EXISTS history(
            id INTEGER PRIMARY KEY AUTOINCREMENT,
            end_time TEXT NOT NULL,
            planned_duration INTEGER NOT NULL,
            completed_duration INTEGER NOT NULL,
            session_type TEXT NOT NULL,
            is_completed BOOLEAN NOT NULL DEFAULT 0,
            category TEXT NOT NULL DEFAULT 'General'
    )
        "@,
        SchemaStep::ProbeCompleted => "SELECT is_completed FROM history LIMIT 1"@,
        SchemaStep::AddCompleted => "ALTER TABLE history ADD COLUMN is_completed BOOLEAN NOT NULL DEFAULT 0"@,
        SchemaStep::MarkCompleted => "UPDATE history SET is_completed = 1 WHERE completed_duration >= planned_duration"@,
        SchemaStep::SetVersionOne => "PRAGMA user_version = 1"@,
        SchemaStep::ProbeCategory => "SELECT category FROM history LIMIT 1"@,
        SchemaStep::AddCategory => "ALTER TABLE history ADD COLUMN category TEXT NOT NULL DEFAULT 'General'"@,
        SchemaStep::SetVersionTwo => "PRAGMA user_version = 2"@,
        SchemaStep::Done => ""@,
    }
}

/// The message printed before the error of a reporting step; empty for the
/// others.
pub open spec fn report_of(step: SchemaStep) -> Seq<char> {
    match step {
        SchemaStep::CreateTable => "Got error while creating database "@,
        SchemaStep::AddCompleted => "Got error while altering database "@,
        _ => ""@,
    }
}

/// The first step for a database at schema version `user_version`.
pub fn first_schema_step(user_version: i32) -> (s: SchemaStep)
    ensures
        s == first_step(user_version),
{
    if user_version < 1 {
        SchemaStep::CreateTable
    } else if user_version < 2 {
        SchemaStep::ProbeCategory
    } else {
        SchemaStep::Done
    }
}

/// The step after `step`, given whether its probe succeeded.
pub fn next_schema_step(step: SchemaStep, probe_ok: bool) -> (s: SchemaStep)
    ensures
        s == step_after(step, probe_ok),
{
    match step {
        SchemaStep::CreateTable => SchemaStep::ProbeCompleted,
        SchemaStep::ProbeCompleted => if probe_ok {
            SchemaStep::SetVersionOne
        } else {
            SchemaStep::AddCompleted
        },
        SchemaStep::AddCompleted => SchemaStep::MarkCompleted,
        SchemaStep::MarkCompleted => SchemaStep::SetVersionOne,
        SchemaStep::SetVersionOne => SchemaStep::ProbeCategory,
        SchemaStep::ProbeCategory => if probe_ok {
            SchemaStep::SetVersionTwo
        } else {
            SchemaStep::AddCategory
        },
        SchemaStep::AddCategory => SchemaStep::SetVersionTwo,
        SchemaStep::SetVersionTwo => SchemaStep::Done,
        SchemaStep::Done => SchemaStep::Done,
    }
}

/// What the caller does at a step.
pub fn step_kind(step: SchemaStep) -> (k: StepKind)
    ensures
        k == kind_of(step),
{
    match step {
        SchemaStep::CreateTable | SchemaStep::AddCompleted => StepKind::RunReporting,
        SchemaStep::MarkCompleted | SchemaStep::SetVersionOne => StepKind::RunIgnoring,
        SchemaStep::AddCategory | SchemaStep::SetVersionTwo => StepKind::RunFailing,
        SchemaStep::ProbeCompleted | SchemaStep::ProbeCategory => StepKind::Probe,
        SchemaStep::Done => StepKind::Finish,
    }
}

/// The statement of a step.
pub fn step_sql(step: SchemaStep) -> (s: &'static str)
    ensures
        s@ == sql_of(step),
{
    match step {
        SchemaStep::CreateTable => "CREATE TABLE IF NOT EXISTS history(
            id INTEGER PRIMARY KEY AUTOINCREMENT,
            end_time TEXT NOT NULL,
            planned_duration INTEGER NOT NULL,
            completed_duration INTEGER NOT NULL,
            session_type TEXT NOT NULL,
            is_completed BOOLEAN NOT NULL DEFAULT 0,
            category TEXT NOT NULL DEFAULT 'General'
    )
        ",
        SchemaStep::ProbeCompleted => "SELECT is_completed FROM history LIMIT 1",
        SchemaStep::AddCompleted => "ALTER TABLE history ADD COLUMN is_completed BOOLEAN NOT NULL DEFAULT 0",
        SchemaStep::MarkCompleted => "UPDATE history SET is_completed = 1 WHERE completed_duration >= planned_duration",
        SchemaStep::SetVersionOne => "PRAGMA user_version = 1",
        SchemaStep::ProbeCategory => "SELECT category FROM history LIMIT 1",
        SchemaStep::AddCategory => "ALTER TABLE history ADD COLUMN category TEXT NOT NULL DEFAULT 'General'",
        SchemaStep::SetVersionTwo => "PRAGMA user_version = 2",
        SchemaStep::Done => "",
    }
}

/// The message printed before the error of a reporting step.
pub fn step_report(step: SchemaStep) -> (s: &'static str)
    ensures
        s@ == report_of(step),
{
    match step {
        SchemaStep::CreateTable => "Got error while creating database ",
        SchemaStep::AddCompleted => "Got error while altering database ",
        _ => "",
    }
}

/// How many steps are left at most before the schema is current.
pub open spec fn steps_left(step: SchemaStep) -> nat {
    match step {
        SchemaStep::CreateTable => 8,
        SchemaStep::ProbeCompleted => 7,
        SchemaStep::AddCompleted => 6,
        SchemaStep::MarkCompleted => 5,
        SchemaStep::SetVersionOne => 4,
        SchemaStep::ProbeCategory => 3,
        SchemaStep::AddCategory => 2,
        SchemaStep::SetVersionTwo => 1,
        SchemaStep::Done => 0,
    }
}

/// The steps always end: each step but the last brings the end nearer,
/// whatever the probes say. The last step before the end records schema
/// version two, and a database starts at the end exactly when its version
/// is two or more.
pub proof fn lemma_schema_steps_end(step: SchemaStep, probe_ok: bool, user_version: i32)
    ensures
        step != SchemaStep::Done ==> steps_left(step_after(step, probe_ok)) < steps_left(step),
        step != SchemaStep::Done && step_after(step, probe_ok) == SchemaStep::Done ==> step
            == SchemaStep::SetVersionTwo,
        (first_step(user_version) == SchemaStep::Done) == (user_version >= 2),
        step_after(SchemaStep::ProbeCompleted, true) != SchemaStep::AddCompleted,
        step_after(SchemaStep::ProbeCategory, true) != SchemaStep::AddCategory,
{
}

} // verus!
