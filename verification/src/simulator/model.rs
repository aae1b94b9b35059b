//! Tables, rows and queries.

use vstd::prelude::*;
use vstd::string::*;

use crate::double;

verus! {

/// A value in a row.
#[derive(Debug)]
pub enum Value {
    Null,
    Integer(i64),
    /// A double, by its bits.
    Float(u64),
    Text(String),
    Blob(Vec<u8>),
}

/// A value in a row, as contracts speak of it.
pub enum ValueModel {
    Null,
    Integer(i64),
    Float(u64),
    Text(Seq<char>),
    Blob(Seq<u8>),
}

impl View for Value {
    type V = ValueModel;

    open spec fn view(&self) -> ValueModel {
        match self {
            Value::Null => ValueModel::Null,
            Value::Integer(i) => ValueModel::Integer(*i),
            Value::Float(bits) => ValueModel::Float(*bits),
            Value::Text(s) => ValueModel::Text(s@),
            Value::Blob(b) => ValueModel::Blob(b@),
        }
    }
}

/// The type of a column.
#[derive(Copy, Clone, Debug, PartialEq, Eq, Structural)]
pub enum ColumnType {
    Integer,
    Float,
    Text,
    Blob,
}

/// A column of a table.
#[derive(Debug)]
pub struct Column {
    pub name: String,
    pub column_type: ColumnType,
}

/// A column of a table, as contracts speak of it.
pub struct ColumnModel {
    pub name: Seq<char>,
    pub column_type: ColumnType,
}

impl View for Column {
    type V = ColumnModel;

    open spec fn view(&self) -> ColumnModel {
        ColumnModel { name: self.name@, column_type: self.column_type }
    }
}

/// A table and what it holds.
#[derive(Debug)]
pub struct Table {
    pub name: String,
    pub columns: Vec<Column>,
    pub rows: Vec<Vec<Value>>,
}

/// A table and what it holds, as contracts speak of it.
pub struct TableModel {
    pub name: Seq<char>,
    pub columns: Seq<ColumnModel>,
    pub rows: Seq<Seq<ValueModel>>,
}

/// A row, as contracts speak of it.
pub open spec fn row_model(row: Seq<Value>) -> Seq<ValueModel> {
    row.map_values(|v: Value| v@)
}

/// Some rows, as contracts speak of them.
pub open spec fn rows_model(rows: Seq<Vec<Value>>) -> Seq<Seq<ValueModel>> {
    rows.map_values(|r: Vec<Value>| row_model(r@))
}

/// Some columns, as contracts speak of them.
pub open spec fn columns_model(columns: Seq<Column>) -> Seq<ColumnModel> {
    columns.map_values(|c: Column| c@)
}

impl View for Table {
    type V = TableModel;

    open spec fn view(&self) -> TableModel {
        TableModel {
            name: self.name@,
            columns: columns_model(self.columns@),
            rows: rows_model(self.rows@),
        }
    }
}

/// Some tables, as contracts speak of them.
pub open spec fn tables_model(tables: Seq<Table>) -> Seq<TableModel> {
    tables.map_values(|t: Table| t@)
}

/// A condition on rows.
#[derive(Debug)]
pub enum Predicate {
    /// A column has a value.
    Eq(String, Value),
    /// Any other condition, as SQL text.
    Other(String),
}

/// `CREATE TABLE`.
#[derive(Debug)]
pub struct Create {
    pub table: Table,
}

/// `INSERT`.
#[derive(Debug)]
pub struct Insert {
    pub table: String,
    pub values: Vec<Vec<Value>>,
}

/// `SELECT`.
#[derive(Debug)]
pub struct Select {
    pub table: String,
    pub predicate: Predicate,
}

/// `DELETE`.
#[derive(Debug)]
pub struct Delete {
    pub table: String,
    pub predicate: Predicate,
}

/// A query.
#[derive(Debug)]
pub enum Query {
    Create(Create),
    Select(Select),
    Insert(Insert),
    Delete(Delete),
}

/// Two values are equal. Doubles are compared as numbers.
pub open spec fn same_value(a: ValueModel, b: ValueModel) -> bool {
    match (a, b) {
        (ValueModel::Float(x), ValueModel::Float(y)) => double::equal(x, y),
        _ => a == b,
    }
}

/// Two rows are equal.
pub open spec fn same_row(a: Seq<ValueModel>, b: Seq<ValueModel>) -> bool {
    a.len() == b.len() && forall|i: int| 0 <= i < a.len() ==> same_value(#[trigger] a[i], b[i])
}

fn eq_bytes(a: &Vec<u8>, b: &Vec<u8>) -> (res: bool)
    ensures
        res == (a@ == b@),
{
    if a.len() != b.len() {
        return false;
    }
    for i in 0..a.len()
        invariant
            a@.len() == b@.len(),
            forall|j: int| 0 <= j < i ==> a@[j] == b@[j],
    {
        if a[i] != b[i] {
            return false;
        }
    }
    proof {
        assert(a@ =~= b@);
    }
    true
}

/// Tells whether two values are equal.
pub fn eq_values(a: &Value, b: &Value) -> (res: bool)
    ensures
        res == same_value(a@, b@),
{
    match (a, b) {
        (Value::Null, Value::Null) => true,
        (Value::Integer(x), Value::Integer(y)) => *x == *y,
        (Value::Float(x), Value::Float(y)) => double::eq_doubles(*x, *y),
        (Value::Text(x), Value::Text(y)) => *x == *y,
        (Value::Blob(x), Value::Blob(y)) => eq_bytes(x, y),
        _ => false,
    }
}

/// Tells whether two rows are equal.
pub fn eq_rows(a: &Vec<Value>, b: &Vec<Value>) -> (res: bool)
    ensures
        res == same_row(row_model(a@), row_model(b@)),
{
    if a.len() != b.len() {
        return false;
    }
    for i in 0..a.len()
        invariant
            a@.len() == b@.len(),
            forall|j: int|
                0 <= j < i ==> same_value(#[trigger] row_model(a@)[j], row_model(b@)[j]),
    {
        if !eq_values(&a[i], &b[i]) {
            proof {
                assert(!same_value(row_model(a@)[i as int], row_model(b@)[i as int]));
            }
            return false;
        }
    }
    true
}

fn clone_bytes(b: &Vec<u8>) -> (res: Vec<u8>)
    ensures
        res@ == b@,
{
    let mut res: Vec<u8> = Vec::new();
    for i in 0..b.len()
        invariant
            res@ == b@.take(i as int),
    {
        res.push(b[i]);
        proof {
            assert(b@.take(i + 1) =~= b@.take(i as int).push(b@[i as int]));
        }
    }
    proof {
        assert(b@.take(b@.len() as int) =~= b@);
    }
    res
}

impl Clone for Value {
    fn clone(&self) -> (res: Self)
        ensures
            res@ == self@,
    {
        match self {
            Value::Null => Value::Null,
            Value::Integer(i) => Value::Integer(*i),
            Value::Float(bits) => Value::Float(*bits),
            Value::Text(s) => Value::Text(s.clone()),
            Value::Blob(b) => Value::Blob(clone_bytes(b)),
        }
    }
}

/// A copy of a row.
pub fn clone_row(row: &Vec<Value>) -> (res: Vec<Value>)
    ensures
        row_model(res@) == row_model(row@),
{
    let mut res: Vec<Value> = Vec::new();
    for i in 0..row.len()
        invariant
            res@.len() == i,
            forall|j: int| 0 <= j < i ==> (#[trigger] res@[j])@ == row@[j]@,
    {
        res.push(row[i].clone());
    }
    proof {
        assert(row_model(res@) =~= row_model(row@));
    }
    res
}

/// A copy of some rows.
pub fn clone_rows(rows: &Vec<Vec<Value>>) -> (res: Vec<Vec<Value>>)
    ensures
        rows_model(res@) == rows_model(rows@),
{
    let mut res: Vec<Vec<Value>> = Vec::new();
    for i in 0..rows.len()
        invariant
            res@.len() == i,
            forall|j: int|
                0 <= j < i ==> row_model((#[trigger] res@[j])@) == row_model(rows@[j]@),
    {
        res.push(clone_row(&rows[i]));
    }
    proof {
        assert(rows_model(res@) =~= rows_model(rows@));
    }
    res
}

impl Clone for Column {
    fn clone(&self) -> (res: Self)
        ensures
            res@ == self@,
    {
        Column { name: self.name.clone(), column_type: self.column_type }
    }
}

impl Clone for Table {
    fn clone(&self) -> (res: Self)
        ensures
            res@ == self@,
    {
        let mut columns: Vec<Column> = Vec::new();
        for i in 0..self.columns.len()
            invariant
                columns@.len() == i,
                forall|j: int| 0 <= j < i ==> (#[trigger] columns@[j])@ == self.columns@[j]@,
        {
            columns.push(self.columns[i].clone());
        }
        proof {
            assert(columns_model(columns@) =~= columns_model(self.columns@));
        }
        Table { name: self.name.clone(), columns, rows: clone_rows(&self.rows) }
    }
}

impl Clone for Create {
    fn clone(&self) -> (res: Self)
        ensures
            res.table@ == self.table@,
    {
        Create { table: self.table.clone() }
    }
}

} // verus!
