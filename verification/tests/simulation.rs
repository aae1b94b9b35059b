//! Plans, their shadow, and carrying them out.

use limbo_util::error::LimboError;
use limbo_util::simulator::cli::SimulatorCLI;
use limbo_util::simulator::env::{SimConnection, SimulatorEnv};
use limbo_util::simulator::execution::{QueryEvent, QueryRun, QueryStep};
use limbo_util::simulator::generation::{
    assemble_row, create_table, property_double_create_failure, property_insert_select,
    random_fault, random_read, random_write, PlanBuilder,
};
use limbo_util::simulator::model::{
    eq_rows, eq_values, Column, ColumnType, Create, Delete, Insert, Predicate, Query, Select,
    Table, Value,
};
use limbo_util::simulator::plan::{
    Assertion, Check, Fault, Interaction, InteractionPlan, InteractionStats, Interactions,
    QueryError, ResultSet,
};
use rand::SeedableRng;

fn table(name: &str) -> Table {
    Table {
        name: name.to_string(),
        columns: vec![
            Column {
                name: "a".to_string(),
                column_type: ColumnType::Integer,
            },
            Column {
                name: "b".to_string(),
                column_type: ColumnType::Text,
            },
        ],
        rows: vec![],
    }
}

fn create(name: &str) -> Interaction {
    Interaction::Query(Query::Create(Create { table: table(name) }))
}

fn insert(name: &str, rows: Vec<Vec<Value>>) -> Interaction {
    Interaction::Query(Query::Insert(Insert {
        table: name.to_string(),
        values: rows,
    }))
}

fn select(name: &str) -> Select {
    Select {
        table: name.to_string(),
        predicate: Predicate::Other("1 = 1".to_string()),
    }
}

fn row(a: i64, b: &str) -> Vec<Value> {
    vec![Value::Integer(a), Value::Text(b.to_string())]
}

fn environment(max_interactions: usize) -> SimulatorEnv {
    SimulatorEnv {
        max_interactions,
        tables: vec![],
        connections: vec![SimConnection::Connected, SimConnection::Connected],
        rng_seed: vec![],
    }
}

#[test]
fn the_command_line_has_defaults() {
    let cli = SimulatorCLI::default();
    assert_eq!(cli.seed, None);
    assert_eq!(cli.output_dir, None);
    assert!(!cli.doublecheck);
    assert_eq!(cli.maximum_size, 20000);
    assert_eq!(cli.minimum_size, 10000);
    assert_eq!(cli.maximum_time, 3600);
}

#[test]
fn a_new_plan_is_empty_and_grows() {
    let mut plan = InteractionPlan::new();
    assert!(plan.plan.is_empty());
    assert!(plan.stack.is_empty());
    assert_eq!(plan.interaction_pointer, 0);
    plan.push(create("t"));
    plan.push(Interaction::Fault(Fault::Disconnect));
    assert_eq!(plan.plan.len(), 2);
    assert!(matches!(plan.plan[1], Interaction::Fault(Fault::Disconnect)));
}

fn mixed_plan() -> InteractionPlan {
    let mut plan = InteractionPlan::new();
    plan.push(create("t"));
    plan.push(insert("t", vec![row(1, "x")]));
    plan.push(insert("t", vec![row(2, "y")]));
    plan.push(Interaction::Query(Query::Select(select("t"))));
    plan.push(Interaction::Query(Query::Delete(Delete {
        table: "t".to_string(),
        predicate: Predicate::Other("0".to_string()),
    })));
    plan.push(Interaction::Assertion(Assertion {
        check: Check::TableExists("t".to_string()),
        message: "wrong".to_string(),
    }));
    plan.push(Interaction::Fault(Fault::Disconnect));
    plan
}

#[test]
fn queries_are_counted_by_kind() {
    let stats = mixed_plan().stats();
    assert_eq!(stats.read_count, 1);
    assert_eq!(stats.write_count, 2);
    assert_eq!(stats.delete_count, 1);
    assert_eq!(stats.create_count, 1);
    assert_eq!(stats.to_text(), "Read: 1, Write: 2, Delete: 1, Create: 1");
}

#[test]
fn numbers_are_shown_in_decimal() {
    let stats = InteractionStats {
        read_count: 0,
        write_count: 10,
        delete_count: 20304,
        create_count: usize::MAX,
    };
    assert_eq!(
        stats.to_text(),
        format!("Read: 0, Write: 10, Delete: 20304, Create: {}", usize::MAX)
    );
}

#[test]
fn a_plan_is_shown_line_by_line() {
    let sql: Vec<String> = ["CREATE", "INSERT 1", "INSERT 2", "SELECT", "DELETE"]
        .iter()
        .map(|s| s.to_string())
        .collect();
    assert_eq!(
        mixed_plan().to_text(&sql),
        "CREATE;\nINSERT 1;\nINSERT 2;\nSELECT;\nDELETE;\n-- ASSERT: wrong;\n-- FAULT: DISCONNECT;\n"
    );
    assert_eq!(InteractionPlan::new().to_text(&vec![]), "");
    let plan = mixed_plan();
    assert_eq!(plan.plan[0].to_text("CREATE"), "CREATE");
    assert_eq!(plan.plan[5].to_text(""), "ASSERT: wrong");
    assert_eq!(plan.plan[6].to_text(""), "FAULT: DISCONNECT");
    assert_eq!(Fault::Disconnect.to_text(), "DISCONNECT");
}

#[test]
fn the_shadow_follows_creations_and_insertions() {
    let mut env = environment(0);
    let steps = Interactions(vec![
        create("t"),
        create("u"),
        insert("u", vec![row(1, "x"), row(2, "y")]),
        Interaction::Query(Query::Select(select("t"))),
        create("u"),
        insert("u", vec![row(3, "z")]),
        Interaction::Fault(Fault::Disconnect),
    ]);
    steps.shadow(&mut env);
    assert_eq!(env.tables.len(), 2);
    assert_eq!(env.tables[0].name, "t");
    assert!(env.tables[0].rows.is_empty());
    assert_eq!(env.tables[1].name, "u");
    assert_eq!(env.tables[1].rows.len(), 3);
    assert!(eq_rows(&env.tables[1].rows[2], &row(3, "z")));
    assert_eq!(env.connections.len(), 2);
}

#[test]
fn some_interactions_have_no_shadow() {
    let env = environment(0);
    let into_nothing = Interactions(vec![insert("t", vec![])]);
    assert!(!into_nothing.can_be_shadowed(&env));
    let created = Interactions(vec![create("t"), create("t"), insert("t", vec![row(1, "x")])]);
    assert!(created.can_be_shadowed(&env));
    assert!(!Interactions(mixed_plan().plan).can_be_shadowed(&env));
    let mut with_table = environment(0);
    with_table.tables.push(table("t"));
    assert!(into_nothing.can_be_shadowed(&with_table));
}

#[test]
fn values_are_equal_as_numbers_are() {
    let f = |x: f64| Value::Float(x.to_bits());
    assert!(eq_values(&f(0.0), &f(-0.0)));
    assert!(eq_values(&f(1.5), &f(1.5)));
    assert!(!eq_values(&f(f64::NAN), &f(f64::NAN)));
    assert!(!eq_values(&f(1.0), &Value::Integer(1)));
    assert!(eq_values(&Value::Null, &Value::Null));
    assert!(eq_values(&Value::Blob(vec![1, 2]), &Value::Blob(vec![1, 2])));
    assert!(!eq_values(&Value::Blob(vec![1, 2]), &Value::Blob(vec![1, 3])));
    assert!(!eq_values(&Value::Blob(vec![1]), &Value::Blob(vec![1, 3])));
    assert!(!eq_rows(&row(1, "x"), &vec![Value::Integer(1)]));
}

fn query() -> Interaction {
    Interaction::Query(Query::Select(select("t")))
}

#[test]
fn a_query_comes_to_all_of_its_rows() {
    let mut run = QueryRun::start();
    let q = query();
    for event in [
        QueryEvent::Opened,
        QueryEvent::IO,
        QueryEvent::Row(row(1, "x")),
        QueryEvent::Busy,
        QueryEvent::Interrupt,
        QueryEvent::Row(row(2, "y")),
    ] {
        assert!(matches!(q.execute_query(&mut run, event), QueryStep::Next));
    }
    match q.execute_query(&mut run, QueryEvent::Done) {
        QueryStep::Return(Ok(rows)) => {
            assert_eq!(rows.len(), 2);
            assert!(eq_rows(&rows[0], &row(1, "x")));
            assert!(eq_rows(&rows[1], &row(2, "y")));
        }
        other => panic!("{:?}", other),
    }
    assert!(run.returned);
}

#[test]
fn a_query_may_be_refused_or_fail() {
    let mut run = QueryRun::start();
    let refusal = QueryEvent::Refused(QueryError {
        text: "no such table".to_string(),
    });
    match query().execute_query(&mut run, refusal) {
        QueryStep::Return(Err(e)) => assert_eq!(e.text, "no such table"),
        other => panic!("{:?}", other),
    }
    let mut run = QueryRun::start();
    query().execute_query(&mut run, QueryEvent::Opened);
    query().execute_query(&mut run, QueryEvent::Row(row(1, "x")));
    match query().execute_query(&mut run, QueryEvent::Failed) {
        QueryStep::Return(Ok(rows)) => assert_eq!(rows.len(), 1),
        other => panic!("{:?}", other),
    }
}

fn assertion(check: Check) -> Interaction {
    Interaction::Assertion(Assertion {
        check,
        message: "not met".to_string(),
    })
}

fn fails(a: &Interaction, stack: &Vec<ResultSet>) -> bool {
    match a.execute_assertion(stack) {
        Ok(()) => false,
        Err(LimboError::InternalError(message)) => {
            assert_eq!(message, "not met");
            true
        }
        other => panic!("{:?}", other),
    }
}

#[test]
fn a_row_is_looked_for_in_the_last_result() {
    let wanted = assertion(Check::RowReturned(row(1, "x")));
    let found: Vec<ResultSet> = vec![Ok(vec![row(0, "w"), row(1, "x")])];
    assert!(!fails(&wanted, &found));
    let hidden: Vec<ResultSet> = vec![Ok(vec![row(1, "x")]), Ok(vec![])];
    assert!(fails(&wanted, &hidden));
    let refused: Vec<ResultSet> = vec![Err(QueryError {
        text: "x".to_string(),
    })];
    assert!(fails(&wanted, &refused));
    let nan = || vec![Value::Float(f64::NAN.to_bits())];
    let unequal = assertion(Check::RowReturned(nan()));
    assert!(fails(&unequal, &vec![Ok(vec![nan()])]));
}

#[test]
fn a_second_creation_is_refused_in_words() {
    let wanted = assertion(Check::TableExists("t".to_string()));
    let said = |text: &str| -> Vec<ResultSet> {
        vec![Err(QueryError {
            text: text.to_string(),
        })]
    };
    assert!(!fails(&wanted, &said("Parse error: Table t already exists")));
    assert!(!fails(&wanted, &said("Table t already exists!")));
    assert!(fails(&wanted, &said("Table tt already exists")));
    assert!(fails(&wanted, &said("")));
    assert!(fails(&wanted, &vec![Ok(vec![])]));
}

#[test]
fn a_disconnection_happens_once() {
    let mut env = environment(0);
    let fault = Interaction::Fault(Fault::Disconnect);
    assert!(fault.needs_closing(&env, 0));
    assert!(fault.needs_closing(&env, 1));
    assert!(fault.execute_fault(&mut env, 1, Ok(())).is_ok());
    assert!(fault.needs_closing(&env, 0));
    assert!(!fault.needs_closing(&env, 1));
    assert_eq!(env.connections[0], SimConnection::Connected);
    assert_eq!(env.connections[1], SimConnection::Disconnected);
    match fault.execute_fault(&mut env, 1, Ok(())) {
        Err(LimboError::InternalError(m)) => {
            assert_eq!(m, "Tried to disconnect a disconnected connection")
        }
        other => panic!("{:?}", other),
    }
    let refused = Err(LimboError::Engine("busy".to_string()));
    match fault.execute_fault(&mut env, 0, refused) {
        Err(LimboError::Engine(m)) => assert_eq!(m, "busy"),
        other => panic!("{:?}", other),
    }
    assert_eq!(env.connections[0], SimConnection::Connected);
}

#[test]
fn a_row_is_put_together_around_a_value() {
    let others = || vec![Value::Integer(1), Value::Integer(2)];
    let value = || Value::Text("v".to_string());
    let first = assemble_row(0, value(), others());
    assert!(eq_rows(&first, &vec![value(), Value::Integer(1), Value::Integer(2)]));
    let last = assemble_row(2, value(), others());
    assert!(eq_rows(&last, &vec![Value::Integer(1), Value::Integer(2), value()]));
}

#[test]
fn an_inserted_row_is_selected_and_demanded() {
    let shown = vec!["1".to_string(), "'it\"s'".to_string()];
    let Interactions(steps) = property_insert_select(&table("t"), 1, row(1, "x"), &shown);
    assert_eq!(steps.len(), 3);
    match &steps[0] {
        Interaction::Query(Query::Insert(i)) => {
            assert_eq!(i.table, "t");
            assert_eq!(i.values.len(), 1);
            assert!(eq_rows(&i.values[0], &row(1, "x")));
        }
        other => panic!("{:?}", other),
    }
    match &steps[1] {
        Interaction::Query(Query::Select(Select {
            table,
            predicate: Predicate::Eq(column, value),
        })) => {
            assert_eq!(table, "t");
            assert_eq!(column, "b");
            assert!(eq_values(value, &Value::Text("x".to_string())));
        }
        other => panic!("{:?}", other),
    }
    match &steps[2] {
        Interaction::Assertion(a) => {
            assert_eq!(
                a.message,
                "row [[\"1\", \"'it\\\"s'\"]] not found in table t after inserting (b = 'it\"s')"
            );
            assert!(a.check.holds(&Ok(vec![row(1, "x")])));
        }
        other => panic!("{:?}", other),
    }
    let mut env = environment(0);
    env.tables.push(table("t"));
    Interactions(steps).shadow(&mut env);
    assert!(eq_rows(&env.tables[0].rows[0], &row(1, "x")));
}

#[test]
fn a_table_is_created_twice() {
    let Interactions(steps) = property_double_create_failure(Create { table: table("t") });
    assert_eq!(steps.len(), 3);
    for step in &steps[0..2] {
        match step {
            Interaction::Query(Query::Create(c)) => assert_eq!(c.table.name, "t"),
            other => panic!("{:?}", other),
        }
    }
    match &steps[2] {
        Interaction::Assertion(Assertion {
            check: Check::TableExists(name),
            message,
        }) => {
            assert_eq!(name, "t");
            assert_eq!(
                message,
                "creating two tables with the name should result in a failure for the second query"
            );
        }
        other => panic!("{:?}", other),
    }
    let mut env = environment(0);
    Interactions(steps).shadow(&mut env);
    assert_eq!(env.tables.len(), 1);
}

#[test]
fn single_interactions() {
    assert!(matches!(
        create_table(Create { table: table("t") }).0[..],
        [Interaction::Query(Query::Create(_))]
    ));
    assert!(matches!(
        random_read(select("t")).0[..],
        [Interaction::Query(Query::Select(_))]
    ));
    let i = Insert {
        table: "t".to_string(),
        values: vec![],
    };
    assert!(matches!(
        random_write(i).0[..],
        [Interaction::Query(Query::Insert(_))]
    ));
    assert!(matches!(random_fault().0[..], [Interaction::Fault(Fault::Disconnect)]));
}

#[test]
fn a_plan_is_made_until_it_is_long_enough() {
    let mut env = environment(4);
    env.tables.push(table("old"));
    let mut builder = PlanBuilder::begin(&env, 7, Create { table: table("t") });
    assert!(builder.env.connections.is_empty());
    assert_eq!(builder.env.tables.len(), 1);
    assert_eq!(builder.env.max_interactions, 4);
    assert!(builder.needs_more());
    builder.add_interactions(random_fault());
    assert!(builder.needs_more());
    let shown = vec!["1".to_string(), "x".to_string()];
    let property = property_insert_select(&builder.env.tables[0], 0, row(1, "x"), &shown);
    builder.add_interactions(property);
    assert!(!builder.needs_more());
    assert_eq!(builder.plan.plan.len(), 5);
    assert!(builder.plan.plan.len() <= builder.env.max_interactions + 2);
    assert_eq!(builder.env.tables[0].rows.len(), 1);
    assert_eq!(builder.plan.stats().create_count, 1);
}

#[test]
fn a_seed_is_spread_out() {
    let env = environment(0);
    for seed in [0u64, 7, u64::MAX] {
        let spread = env.for_planning(seed).rng_seed;
        let rng = rand_chacha::ChaCha8Rng::seed_from_u64(seed);
        assert_eq!(spread, rng.get_seed().to_vec());
        assert_eq!(spread.len(), 32);
        assert_ne!(spread[0..8], seed.to_le_bytes());
    }
}
