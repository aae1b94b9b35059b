//! What contracts tell of values, rows and tables, and when values are equal.

use vstd::prelude::*;

use crate::double;
use crate::simulator::env::SimulatorEnv;
use crate::simulator::model;
use crate::simulator::model::{Table, Value, ValueModel};

verus! {

/// Two values agree: they are of the same type, and the same integer, text or
/// blob, or doubles that are equal as numbers.
pub open spec fn agree(a: Value, b: Value) -> bool {
    match a {
        Value::Null => b is Null,
        Value::Integer(x) => b matches Value::Integer(y) && x == y,
        Value::Float(x) => b matches Value::Float(y) && double::equal(x, y),
        Value::Text(x) => b matches Value::Text(y) && x@ == y@,
        Value::Blob(x) => b matches Value::Blob(y) && x@ == y@,
    }
}

/// Values are the same exactly if they agree.
pub proof fn same_values_agree(a: Value, b: Value)
    ensures
        model::same_value(a@, b@) <==> agree(a, b),
{
}

/// Rows are the same exactly if they are of the same length and agree in every
/// column.
pub proof fn same_rows_agree(a: Seq<Value>, b: Seq<Value>)
    ensures
        model::same_row(model::row_model(a), model::row_model(b)) <==> a.len() == b.len() && (
        forall|k: int| 0 <= k < a.len() ==> agree(#[trigger] a[k], b[k])),
{
    let x = model::row_model(a);
    let y = model::row_model(b);
    if model::same_row(x, y) {
        assert forall|k: int| 0 <= k < a.len() implies agree(#[trigger] a[k], b[k]) by {
            assert(model::same_value(x[k], y[k]));
            same_values_agree(a[k], b[k]);
        }
    }
    if a.len() == b.len() && (forall|k: int| 0 <= k < a.len() ==> agree(#[trigger] a[k], b[k])) {
        assert forall|k: int| 0 <= k < x.len() implies model::same_value(#[trigger] x[k], y[k]) by {
            assert(agree(a[k], b[k]));
            same_values_agree(a[k], b[k]);
        }
    }
}

/// What contracts speak of tells a value from any other.
pub proof fn values_are_told(v: Value)
    ensures
        v@ == match v {
            Value::Null => ValueModel::Null,
            Value::Integer(i) => ValueModel::Integer(i),
            Value::Float(bits) => ValueModel::Float(bits),
            Value::Text(s) => ValueModel::Text(s@),
            Value::Blob(b) => ValueModel::Blob(b@),
        },
{
}

/// What contracts speak of tells every value of every row.
pub proof fn rows_are_told(rows: Seq<Vec<Value>>, i: int, k: int)
    requires
        0 <= i < rows.len(),
        0 <= k < rows[i]@.len(),
    ensures
        model::rows_model(rows).len() == rows.len(),
        model::rows_model(rows)[i] == model::row_model(rows[i]@),
        model::row_model(rows[i]@).len() == rows[i]@.len(),
        model::row_model(rows[i]@)[k] == rows[i]@[k]@,
{
}

/// What contracts speak of tells the name, the columns and the rows of a table.
pub proof fn tables_are_told(table: Table, i: int)
    ensures
        table@.name == table.name@,
        table@.rows == model::rows_model(table.rows@),
        table@.columns.len() == table.columns@.len(),
        0 <= i < table.columns@.len() ==> table@.columns[i].name == table.columns@[i].name@
            && table@.columns[i].column_type == table.columns@[i].column_type,
{
}

/// The shadow is made of the tables of the environment, in order.
pub proof fn the_shadow_is_told(env: SimulatorEnv, i: int)
    ensures
        env.shadow_tables().len() == env.tables@.len(),
        0 <= i < env.tables@.len() ==> env.shadow_tables()[i] == env.tables@[i]@,
{
}

} // verus!
