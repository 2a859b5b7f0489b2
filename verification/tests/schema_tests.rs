use focusd::schema::{
  first_schema_step, next_schema_step, step_kind, step_report, step_sql, SchemaStep, StepKind,
};

fn walk(user_version: i32, probes: &[bool]) -> Vec<SchemaStep> {
  let mut steps = vec![];
  let mut step = first_schema_step(user_version);
  let mut probe = probes.iter();
  loop {
    steps.push(step);
    let ok = match step_kind(step) {
      StepKind::Finish => break,
      StepKind::Probe => *probe.next().unwrap(),
      _ => false,
    };
    step = next_schema_step(step, ok);
  }
  steps
}

#[test]
fn a_new_database_is_created_and_versioned() {
  assert_eq!(
    walk(0, &[true, true]),
    vec![
      SchemaStep::CreateTable,
      SchemaStep::ProbeCompleted,
      SchemaStep::SetVersionOne,
      SchemaStep::ProbeCategory,
      SchemaStep::SetVersionTwo,
      SchemaStep::Done
    ]
  );
}

#[test]
fn an_old_database_gets_its_missing_columns() {
  assert_eq!(
    walk(0, &[false, false]),
    vec![
      SchemaStep::CreateTable,
      SchemaStep::ProbeCompleted,
      SchemaStep::AddCompleted,
      SchemaStep::MarkCompleted,
      SchemaStep::SetVersionOne,
      SchemaStep::ProbeCategory,
      SchemaStep::AddCategory,
      SchemaStep::SetVersionTwo,
      SchemaStep::Done
    ]
  );
  assert_eq!(
    walk(1, &[false]),
    vec![SchemaStep::ProbeCategory, SchemaStep::AddCategory, SchemaStep::SetVersionTwo, SchemaStep::Done]
  );
  assert_eq!(walk(1, &[true]), vec![SchemaStep::ProbeCategory, SchemaStep::SetVersionTwo, SchemaStep::Done]);
}

#[test]
fn a_current_database_needs_nothing() {
  assert_eq!(walk(2, &[]), vec![SchemaStep::Done]);
  assert_eq!(walk(7, &[]), vec![SchemaStep::Done]);
  assert_eq!(first_schema_step(-3), SchemaStep::CreateTable);
}

#[test]
fn statements_and_failure_handling() {
  assert_eq!(step_sql(SchemaStep::SetVersionTwo), "PRAGMA user_version = 2");
  assert_eq!(step_sql(SchemaStep::ProbeCategory), "SELECT category FROM history LIMIT 1");
  assert!(step_sql(SchemaStep::CreateTable).starts_with("CREATE TABLE IF NOT EXISTS history("));
  assert_eq!(step_sql(SchemaStep::Done), "");
  assert_eq!(step_kind(SchemaStep::CreateTable), StepKind::RunReporting);
  assert_eq!(step_kind(SchemaStep::MarkCompleted), StepKind::RunIgnoring);
  assert_eq!(step_kind(SchemaStep::AddCategory), StepKind::RunFailing);
  assert_eq!(step_kind(SchemaStep::ProbeCompleted), StepKind::Probe);
  assert_eq!(step_report(SchemaStep::CreateTable), "Got error while creating database ");
  assert_eq!(step_report(SchemaStep::AddCompleted), "Got error while altering database ");
  assert_eq!(step_report(SchemaStep::SetVersionOne), "");
}
