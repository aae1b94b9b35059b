//! Plans as text.

use vstd::prelude::*;
use vstd::string::*;

use crate::simulator::plan::{Fault, Interaction, InteractionPlan, InteractionStats};
use crate::text;

verus! {

/// A fault as text.
pub open spec fn fault_text(fault: Fault) -> Seq<char> {
    match fault {
        Fault::Disconnect => "DISCONNECT"@,
    }
}

/// An interaction as text; `sql` is the text of its query if it is one.
pub open spec fn interaction_text(interaction: Interaction, sql: Seq<char>) -> Seq<char> {
    match interaction {
        Interaction::Query(_) => sql,
        Interaction::Assertion(assertion) => "ASSERT: "@ + assertion.message@,
        Interaction::Fault(fault) => "FAULT: "@ + fault_text(fault),
    }
}

/// The line of a plan for an interaction. What is not a query is a comment.
pub open spec fn line_text(interaction: Interaction, sql: Seq<char>) -> Seq<char> {
    let comment = match interaction {
        Interaction::Query(_) => ""@,
        _ => "-- "@,
    };
    comment + interaction_text(interaction, sql) + ";\n"@
}

/// How many of some interactions are queries.
pub open spec fn query_count(plan: Seq<Interaction>) -> nat
    decreases plan.len(),
{
    if plan.len() == 0 {
        0
    } else if plan.last() is Query {
        query_count(plan.drop_last()) + 1
    } else {
        query_count(plan.drop_last())
    }
}

/// A plan as text, a line for each interaction; `sql` holds the texts of its
/// queries, in order.
pub open spec fn plan_text(plan: Seq<Interaction>, sql: Seq<String>) -> Seq<char>
    decreases plan.len(),
{
    if plan.len() == 0 {
        Seq::empty()
    } else {
        plan_text(plan.drop_last(), sql) + line_text(plan.last(), sql[query_count(plan) - 1]@)
    }
}

/// The numbers of queries as text.
pub open spec fn stats_text(stats: InteractionStats) -> Seq<char> {
    "Read: "@ + text::decimal(stats.read_count as nat) + ", Write: "@ + text::decimal(
        stats.write_count as nat,
    ) + ", Delete: "@ + text::decimal(stats.delete_count as nat) + ", Create: "@ + text::decimal(
        stats.create_count as nat,
    )
}

impl Fault {
    /// The fault as text.
    pub fn to_text(&self) -> (res: String)
        ensures
            res@ == fault_text(*self),
    {
        match self {
            Fault::Disconnect => "DISCONNECT".to_owned(),
        }
    }
}

impl Interaction {
    /// The interaction as text; `sql` is the text of its query if it is one.
    pub fn to_text(&self, sql: &str) -> (res: String)
        ensures
            res@ == interaction_text(*self, sql@),
    {
        match self {
            Interaction::Query(_) => sql.to_owned(),
            Interaction::Assertion(assertion) => "ASSERT: ".to_owned().concat(&assertion.message),
            Interaction::Fault(fault) => "FAULT: ".to_owned().concat(&fault.to_text()),
        }
    }
}

impl InteractionStats {
    /// The numbers of queries as text.
    pub fn to_text(&self) -> (res: String)
        ensures
            res@ == stats_text(*self),
    {
        let mut res = "Read: ".to_owned();
        text::push_decimal(&mut res, self.read_count);
        res.append(", Write: ");
        text::push_decimal(&mut res, self.write_count);
        res.append(", Delete: ");
        text::push_decimal(&mut res, self.delete_count);
        res.append(", Create: ");
        text::push_decimal(&mut res, self.create_count);
        res
    }
}

impl InteractionPlan {
    /// The plan as text, a line for each interaction; `sql` holds the texts of
    /// its queries, in order.
    pub fn to_text(&self, sql: &Vec<String>) -> (res: String)
        requires
            sql@.len() == query_count(self.plan@),
        ensures
            res@ == plan_text(self.plan@, sql@),
    {
        let mut res = String::new();
        let mut k: usize = 0;
        for i in 0..self.plan.len()
            invariant
                sql@.len() == query_count(self.plan@),
                k == query_count(self.plan@.take(i as int)),
                k <= i,
                res@ == plan_text(self.plan@.take(i as int), sql@),
        {
            let ghost before = res@;
            proof {
                assert(self.plan@.take(i + 1).drop_last() =~= self.plan@.take(i as int));
                lemma_query_count(self.plan@, i + 1);
                reveal_strlit("");
                assert(""@ =~= Seq::empty());
            }
            match &self.plan[i] {
                Interaction::Query(_) => {
                    res.append(&self.plan[i].to_text(&sql[k]));
                    k = k + 1;
                },
                Interaction::Assertion(_) | Interaction::Fault(_) => {
                    res.append("-- ");
                    res.append(&self.plan[i].to_text(""));
                },
            }
            res.append(";\n");
            proof {
                let last = self.plan@[i as int];
                assert(self.plan@.take(i + 1).last() == last);
                assert(res@ =~= before + line_text(
                    last,
                    sql@[query_count(self.plan@.take(i + 1)) - 1]@,
                ));
            }
        }
        proof {
            assert(self.plan@.take(self.plan@.len() as int) =~= self.plan@);
        }
        res
    }
}

proof fn lemma_query_count(plan: Seq<Interaction>, n: int)
    requires
        0 <= n <= plan.len(),
    ensures
        query_count(plan.take(n)) <= query_count(plan),
    decreases plan.len(),
{
    if n < plan.len() {
        lemma_query_count(plan.drop_last(), n);
        assert(plan.drop_last().take(n) =~= plan.take(n));
    } else {
        assert(plan.take(n) =~= plan);
    }
}

} // verus!
