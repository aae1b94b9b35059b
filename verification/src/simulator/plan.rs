//! Plans of interactions.

use vstd::prelude::*;
use vstd::string::*;

use crate::simulator::env::SimulatorEnv;
use crate::simulator::model;
use crate::simulator::model::{Query, Table, TableModel, Value};

verus! {

/// Why the database refused a query, by its text.
#[derive(Debug)]
pub struct QueryError {
    pub text: String,
}

/// What a query came to.
pub type ResultSet = Result<Vec<Vec<Value>>, QueryError>;

/// What an assertion demands of the results so far.
#[derive(Debug)]
pub enum Check {
    /// The last query returned the row.
    RowReturned(Vec<Value>),
    /// The last query was refused because the table exists.
    TableExists(String),
}

/// A demand on the results so far.
#[derive(Debug)]
pub struct Assertion {
    pub check: Check,
    pub message: String,
}

/// Something that goes wrong on purpose.
#[derive(Copy, Clone, Debug, PartialEq, Eq, Structural)]
pub enum Fault {
    Disconnect,
}

/// One step of a plan.
#[derive(Debug)]
pub enum Interaction {
    Query(Query),
    Assertion(Assertion),
    Fault(Fault),
}

/// Some steps of a plan that belong together.
#[derive(Debug)]
pub struct Interactions(pub Vec<Interaction>);

/// A plan, and how far it has been carried out.
#[derive(Debug)]
pub struct InteractionPlan {
    pub plan: Vec<Interaction>,
    pub stack: Vec<ResultSet>,
    pub interaction_pointer: usize,
}

/// How many queries of each kind a plan has.
#[derive(Debug)]
pub struct InteractionStats {
    pub read_count: usize,
    pub write_count: usize,
    pub delete_count: usize,
    pub create_count: usize,
}

/// How many interactions of a plan are reads, writes, deletions or creations.
pub open spec fn count(plan: Seq<Interaction>, kind: spec_fn(Query) -> bool) -> nat
    decreases plan.len(),
{
    if plan.len() == 0 {
        0
    } else {
        count(plan.drop_last(), kind) + match plan.last() {
            Interaction::Query(q) => if kind(q) {
                1nat
            } else {
                0
            },
            _ => 0,
        }
    }
}

/// The query reads.
pub open spec fn reads() -> spec_fn(Query) -> bool {
    |q: Query| q is Select
}

/// The query writes.
pub open spec fn writes() -> spec_fn(Query) -> bool {
    |q: Query| q is Insert
}

/// The query deletes.
pub open spec fn deletes() -> spec_fn(Query) -> bool {
    |q: Query| q is Delete
}

/// The query creates a table.
pub open spec fn creates() -> spec_fn(Query) -> bool {
    |q: Query| q is Create
}

impl InteractionPlan {
    /// A plan with nothing to do.
    pub fn new() -> (res: Self)
        ensures
            res.plan@.len() == 0,
            res.stack@.len() == 0,
            res.interaction_pointer == 0,
    {
        InteractionPlan { plan: Vec::new(), stack: Vec::new(), interaction_pointer: 0 }
    }

    /// Puts an interaction at the end.
    pub fn push(&mut self, interaction: Interaction)
        ensures
            final(self).plan@ == old(self).plan@.push(interaction),
            final(self).stack == old(self).stack,
            final(self).interaction_pointer == old(self).interaction_pointer,
    {
        self.plan.push(interaction);
    }

    /// How many queries of each kind the plan has.
    pub fn stats(&self) -> (res: InteractionStats)
        ensures
            res.read_count == count(self.plan@, reads()),
            res.write_count == count(self.plan@, writes()),
            res.delete_count == count(self.plan@, deletes()),
            res.create_count == count(self.plan@, creates()),
    {
        let mut read: usize = 0;
        let mut write: usize = 0;
        let mut delete: usize = 0;
        let mut create: usize = 0;
        for i in 0..self.plan.len()
            invariant
                read == count(self.plan@.take(i as int), reads()),
                write == count(self.plan@.take(i as int), writes()),
                delete == count(self.plan@.take(i as int), deletes()),
                create == count(self.plan@.take(i as int), creates()),
                read <= i,
                write <= i,
                delete <= i,
                create <= i,
        {
            proof {
                assert(self.plan@.take(i + 1).drop_last() =~= self.plan@.take(i as int));
            }
            match &self.plan[i] {
                Interaction::Query(query) => match query {
                    Query::Select(_) => {
                        read = read + 1;
                    },
                    Query::Insert(_) => {
                        write = write + 1;
                    },
                    Query::Delete(_) => {
                        delete = delete + 1;
                    },
                    Query::Create(_) => {
                        create = create + 1;
                    },
                },
                Interaction::Assertion(_) => {},
                Interaction::Fault(_) => {},
            }
        }
        proof {
            assert(self.plan@.take(self.plan@.len() as int) =~= self.plan@);
        }
        InteractionStats {
            read_count: read,
            write_count: write,
            delete_count: delete,
            create_count: create,
        }
    }
}

/// The position of the first table of a name; the number of tables if there
/// is none.
pub open spec fn find_table(tables: Seq<TableModel>, name: Seq<char>) -> int
    decreases tables.len(),
{
    if tables.len() == 0 || tables[0].name == name {
        0
    } else {
        1 + find_table(tables.drop_first(), name)
    }
}

/// What the tables hold after an interaction. There is no telling after an
/// insertion into a table that is not there, nor after a deletion.
pub open spec fn after_interaction(tables: Seq<TableModel>, interaction: Interaction) -> Option<
    Seq<TableModel>,
> {
    match interaction {
        Interaction::Query(Query::Create(create)) => if find_table(tables, create.table.name@)
            < tables.len() {
            Some(tables)
        } else {
            Some(tables.push(create.table@))
        },
        Interaction::Query(Query::Insert(insert)) => {
            let i = find_table(tables, insert.table@);
            if i < tables.len() {
                Some(
                    tables.update(
                        i,
                        TableModel {
                            rows: tables[i].rows + model::rows_model(insert.values@),
                            ..tables[i]
                        },
                    ),
                )
            } else {
                None
            }
        },
        Interaction::Query(Query::Delete(_)) => None,
        Interaction::Query(Query::Select(_)) => Some(tables),
        Interaction::Assertion(_) => Some(tables),
        Interaction::Fault(_) => Some(tables),
    }
}

/// What the tables hold after some interactions.
pub open spec fn after_interactions(
    tables: Seq<TableModel>,
    interactions: Seq<Interaction>,
) -> Option<Seq<TableModel>>
    decreases interactions.len(),
{
    if interactions.len() == 0 {
        Some(tables)
    } else {
        match after_interactions(tables, interactions.drop_last()) {
            Some(t) => after_interaction(t, interactions.last()),
            None => None,
        }
    }
}

proof fn lemma_find_table(tables: Seq<TableModel>, name: Seq<char>, i: int)
    requires
        0 <= i <= tables.len(),
        forall|j: int| 0 <= j < i ==> (#[trigger] tables[j]).name != name,
        i < tables.len() ==> tables[i].name == name,
    ensures
        find_table(tables, name) == i,
    decreases i,
{
    if i > 0 {
        let rest = tables.drop_first();
        assert(tables[0].name != name);
        assert forall|j: int| 0 <= j < i - 1 implies (#[trigger] rest[j]).name != name by {
            assert(rest[j] == tables[j + 1]);
        }
        lemma_find_table(rest, name, i - 1);
    }
}

/// A table is found by its name, and where none is found there is none.
pub(crate) proof fn lemma_found(tables: Seq<TableModel>, name: Seq<char>)
    ensures
        0 <= find_table(tables, name) <= tables.len(),
        find_table(tables, name) < tables.len() ==> tables[find_table(
            tables,
            name,
        )].name == name,
        forall|i: int|
            0 <= i < find_table(tables, name) ==> (#[trigger] tables[i]).name != name,
    decreases tables.len(),
{
    if tables.len() > 0 && tables[0].name != name {
        let rest = tables.drop_first();
        lemma_found(rest, name);
        let n = find_table(rest, name);
        assert(n < rest.len() ==> rest[n] == tables[n + 1]);
        assert forall|i: int| 0 <= i < find_table(tables, name) implies (
        #[trigger] tables[i]).name != name by {
            if i > 0 {
                assert(rest[i - 1] == tables[i]);
            }
        }
    }
}

/// The first table of a name, if there is one.
fn position_of_table(tables: &Vec<Table>, name: &String) -> (res: Option<usize>)
    ensures
        match res {
            Some(i) => i < tables@.len() && i == find_table(model::tables_model(tables@), name@),
            None => find_table(model::tables_model(tables@), name@) == tables@.len(),
        },
{
    for i in 0..tables.len()
        invariant
            forall|j: int|
                0 <= j < i ==> (#[trigger] model::tables_model(tables@)[j]).name != name@,
    {
        if tables[i].name == *name {
            proof {
                lemma_find_table(model::tables_model(tables@), name@, i as int);
            }
            return Some(i);
        }
    }
    proof {
        lemma_find_table(model::tables_model(tables@), name@, tables@.len() as int);
    }
    None
}

impl Interactions {
    /// Carries the interactions out on the shadow of the tables.
    pub fn shadow(&self, env: &mut SimulatorEnv)
        requires
            after_interactions(old(env).shadow_tables(), self.0@) is Some,
        ensures
            Some(final(env).shadow_tables()) == after_interactions(
                old(env).shadow_tables(),
                self.0@,
            ),
            final(env).max_interactions == old(env).max_interactions,
            final(env).connections == old(env).connections,
            final(env).rng_seed == old(env).rng_seed,
    {
        let ghost first = env.shadow_tables();
        for n in 0..self.0.len()
            invariant
                Some(env.shadow_tables()) == after_interactions(first, self.0@.take(n as int)),
                after_interactions(first, self.0@) is Some,
                env.max_interactions == old(env).max_interactions,
                env.connections == old(env).connections,
                env.rng_seed == old(env).rng_seed,
        {
            let ghost tables = env.shadow_tables();
            proof {
                assert(self.0@.take(n + 1).drop_last() =~= self.0@.take(n as int));
                lemma_told_before(first, self.0@, n + 1);
            }
            match &self.0[n] {
                Interaction::Query(Query::Create(create)) => {
                    if position_of_table(&env.tables, &create.table.name).is_none() {
                        env.tables.push(create.table.clone());
                        proof {
                            assert(env.shadow_tables() =~= tables.push(create.table@));
                        }
                    }
                },
                Interaction::Query(Query::Insert(insert)) => {
                    if let Some(i) = position_of_table(&env.tables, &insert.table) {
                        let mut values = model::clone_rows(&insert.values);
                        let ghost before = env.tables@[i as int];
                        let ghost added = values@;
                        env.tables[i].rows.append(&mut values);
                        proof {
                            assert(env.tables@[i as int].rows@ =~= before.rows@ + added);
                            assert(model::rows_model(env.tables@[i as int].rows@)
                                =~= model::rows_model(before.rows@) + model::rows_model(added));
                            assert(env.shadow_tables() =~= tables.update(
                                i as int,
                                env.tables@[i as int]@,
                            ));
                        }
                    }
                },
                Interaction::Query(Query::Delete(_)) => {},
                Interaction::Query(Query::Select(_)) => {},
                Interaction::Assertion(_) => {},
                Interaction::Fault(_) => {},
            }
        }
        proof {
            assert(self.0@.take(self.0@.len() as int) =~= self.0@);
        }
    }
}

/// What can be told after all interactions could be told after the first `n`.
pub(crate) proof fn lemma_told_before(tables: Seq<TableModel>, interactions: Seq<Interaction>, n: int)
    requires
        0 <= n <= interactions.len(),
        after_interactions(tables, interactions) is Some,
    ensures
        after_interactions(tables, interactions.take(n)) is Some,
    decreases interactions.len(),
{
    if n < interactions.len() {
        lemma_told_before(tables, interactions.drop_last(), n);
        assert(interactions.drop_last().take(n) =~= interactions.take(n));
    } else {
        assert(interactions.take(n) =~= interactions);
    }
}

fn has_name(names: &Vec<String>, name: &String) -> (res: bool)
    ensures
        res == exists|i: int| 0 <= i < names@.len() && (#[trigger] names@[i])@ == name@,
{
    for i in 0..names.len()
        invariant
            forall|j: int| 0 <= j < i ==> (#[trigger] names@[j])@ != name@,
    {
        if names[i] == *name {
            return true;
        }
    }
    false
}

impl Interactions {
    /// Tells whether the interactions can be carried out on the shadow of the
    /// tables: they delete nothing, and insert only into tables that are there.
    pub fn can_be_shadowed(&self, env: &SimulatorEnv) -> (res: bool)
        ensures
            res == (after_interactions(env.shadow_tables(), self.0@) is Some),
    {
        let ghost first = env.shadow_tables();
        let ghost mut tables = first;
        let mut names: Vec<String> = Vec::new();
        for i in 0..env.tables.len()
            invariant
                names@.len() == i,
                forall|j: int| 0 <= j < i ==> (#[trigger] names@[j])@ == env.tables@[j].name@,
        {
            names.push(env.tables[i].name.clone());
        }
        for n in 0..self.0.len()
            invariant
                after_interactions(first, self.0@.take(n as int)) == Some(tables),
                first == env.shadow_tables(),
                names@.len() == tables.len(),
                forall|j: int| 0 <= j < names@.len() ==> (#[trigger] names@[j])@ == tables[j].name,
        {
            proof {
                assert(self.0@.take(n + 1).drop_last() =~= self.0@.take(n as int));
                if after_interactions(first, self.0@) is Some {
                    lemma_told_before(first, self.0@, n + 1);
                }
            }
            match &self.0[n] {
                Interaction::Query(Query::Create(create)) => {
                    proof {
                        let i = find_table(tables, create.table.name@);
                        lemma_found(tables, create.table.name@);
                        assert(i < tables.len() ==> names@[i]@ == create.table.name@);
                    }
                    if !has_name(&names, &create.table.name) {
                        names.push(create.table.name.clone());
                    }
                },
                Interaction::Query(Query::Insert(insert)) => {
                    proof {
                        let i = find_table(tables, insert.table@);
                        lemma_found(tables, insert.table@);
                        assert(i < tables.len() ==> names@[i]@ == insert.table@);
                    }
                    if !has_name(&names, &insert.table) {
                        return false;
                    }
                },
                Interaction::Query(Query::Delete(_)) => {
                    return false;
                },
                _ => {},
            }
            proof {
                tables = after_interaction(tables, self.0@[n as int])->0;
            }
        }
        proof {
            assert(self.0@.take(self.0@.len() as int) =~= self.0@);
        }
        true
    }
}

} // verus!
