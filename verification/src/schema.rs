//! Columns of a table.

use vstd::prelude::*;
use vstd::string::*;

use crate::ast;
use crate::ast::{Expr, Name, Select};
use crate::text;

verus! {

/// The affinity of a column.
#[derive(Copy, Clone, Debug, PartialEq, Eq, Structural)]
pub enum Type {
    Null,
    Text,
    Numeric,
    Integer,
    Real,
    Blob,
}

/// A constraint of a column definition.
#[derive(Debug)]
pub enum ColumnConstraint {
    /// `PRIMARY KEY`, with whatever qualifies it.
    PrimaryKey,
    /// `NOT NULL` or `NULL`, with whatever qualifies it.
    NotNull,
    /// `DEFAULT`.
    Default(Expr),
    /// Any other constraint.
    Other,
}

/// The definition of a column but for its name.
#[derive(Debug)]
pub struct ColumnDefinition {
    pub col_type: Option<ast::Type>,
    pub constraints: Vec<ColumnConstraint>,
}

/// The body of a `CREATE TABLE` statement.
#[derive(Debug)]
pub enum CreateTableBody {
    ColumnsAndConstraints { columns: Vec<(Name, ColumnDefinition)> },
    AsSelect(Select),
}

/// A column of a table.
#[derive(Debug)]
pub struct Column {
    pub name: Option<String>,
    pub ty: Type,
    pub ty_str: String,
    pub default: Option<Expr>,
    pub notnull: bool,
    pub primary_key: bool,
    pub is_rowid_alias: bool,
}

/// The affinity of a declared type, whose name is given in upper case.
pub open spec fn affinity(name: Seq<char>) -> Type {
    if text::occurs("INT"@, name) {
        Type::Integer
    } else if text::occurs("CHAR"@, name) || text::occurs("CLOB"@, name) || text::occurs(
        "TEXT"@,
        name,
    ) {
        Type::Text
    } else if text::occurs("BLOB"@, name) || name.len() == 0 {
        Type::Blob
    } else if text::occurs("REAL"@, name) || text::occurs("FLOA"@, name) || text::occurs(
        "DOUB"@,
        name,
    ) {
        Type::Real
    } else {
        Type::Numeric
    }
}

/// The column is left out: its type says that it is hidden.
pub open spec fn is_hidden(def: ColumnDefinition) -> bool {
    match def.col_type {
        Some(ty) => text::occurs("HIDDEN"@, ty.name@),
        None => false,
    }
}

/// The expression of the first `DEFAULT` among some constraints.
pub open spec fn first_default(s: Seq<ColumnConstraint>) -> Option<Expr>
    decreases s.len(),
{
    if s.len() == 0 {
        None
    } else {
        match first_default(s.drop_last()) {
            Some(e) => Some(e),
            None => match s.last() {
                ColumnConstraint::Default(e) => Some(e),
                _ => None,
            },
        }
    }
}

/// The column is what a definition says of it.
pub open spec fn follows(c: Column, name: Name, def: ColumnDefinition) -> bool {
    &&& c.name == Some(name.0)
    &&& match def.col_type {
        Some(ty) => {
            &&& c.ty == affinity(text::raised(ty.name@))
            &&& c.ty_str@ == ty.name@
        },
        None => c.ty == Type::Null && c.ty_str@.len() == 0,
    }
    &&& c.default == first_default(def.constraints@)
    &&& c.notnull == def.constraints@.contains(ColumnConstraint::NotNull)
    &&& c.primary_key == def.constraints@.contains(ColumnConstraint::PrimaryKey)
    &&& !c.is_rowid_alias
}

/// The definitions of the columns that are not hidden, in order.
pub open spec fn visible(s: Seq<(Name, ColumnDefinition)>) -> Seq<(Name, ColumnDefinition)>
    decreases s.len(),
{
    if s.len() == 0 {
        s
    } else if is_hidden(s.last().1) {
        visible(s.drop_last())
    } else {
        visible(s.drop_last()).push(s.last())
    }
}

/// The columns are what the definitions say of them, in order.
pub open spec fn all_follow(cs: Seq<Column>, defs: Seq<(Name, ColumnDefinition)>) -> bool {
    &&& cs.len() == defs.len()
    &&& forall|i: int| 0 <= i < cs.len() ==> follows(#[trigger] cs[i], defs[i].0, defs[i].1)
}

/// The affinity of a declared type, whose name is given in upper case.
pub fn affinity_of(name: &str) -> (res: Type)
    ensures
        res == affinity(name@),
{
    if text::contains(name, "INT") {
        Type::Integer
    } else if text::contains(name, "CHAR") || text::contains(name, "CLOB") || text::contains(
        name,
        "TEXT",
    ) {
        Type::Text
    } else if text::contains(name, "BLOB") || name.is_empty() {
        Type::Blob
    } else if text::contains(name, "REAL") || text::contains(name, "FLOA") || text::contains(
        name,
        "DOUB",
    ) {
        Type::Real
    } else {
        Type::Numeric
    }
}

fn hidden(def: &ColumnDefinition) -> (res: bool)
    ensures
        res == is_hidden(*def),
{
    match &def.col_type {
        Some(ty) => text::contains(&ty.name, "HIDDEN"),
        None => false,
    }
}

/// The column that a definition describes.
fn column_from_definition(name: Name, def: ColumnDefinition) -> (res: Column)
    ensures
        follows(res, name, def),
{
    let mut default: Option<Expr> = None;
    let mut notnull = false;
    let mut primary_key = false;
    let ghost constraints = def.constraints@;
    for c in it: def.constraints
        invariant
            it.seq() == constraints,
            default == first_default(constraints.take(it.index() as int)),
            notnull == constraints.take(it.index() as int).contains(ColumnConstraint::NotNull),
            primary_key == constraints.take(it.index() as int).contains(
                ColumnConstraint::PrimaryKey,
            ),
    {
        let ghost before = constraints.take(it.index() as int);
        let ghost after = constraints.take(it.index() + 1);
        proof {
            assert(after =~= before.push(c));
            assert(after.drop_last() =~= before);
            assert(after.last() == c);
        }
        match c {
            ColumnConstraint::Default(e) => {
                if default.is_none() {
                    default = Some(e);
                }
            },
            ColumnConstraint::NotNull => {
                notnull = true;
            },
            ColumnConstraint::PrimaryKey => {
                primary_key = true;
            },
            ColumnConstraint::Other => {},
        }
        proof {
            broadcast use vstd::seq_lib::group_seq_properties;
            assert(notnull == after.contains(ColumnConstraint::NotNull));
        }
    }
    proof {
        assert(constraints.take(constraints.len() as int) =~= constraints);
    }
    let (ty, ty_str) = match def.col_type {
        Some(declared) => (affinity_of(&text::to_uppercase(&declared.name)), declared.name),
        None => (Type::Null, String::new()),
    };
    Column { name: Some(name.0), ty, ty_str, default, notnull, primary_key, is_rowid_alias: false }
}

/// The columns that the body of a `CREATE TABLE` statement defines, without the
/// hidden ones; an error where it defines none but takes them from a `SELECT`.
pub fn columns_from_create_table_body(body: CreateTableBody) -> (res: Result<Vec<Column>, ()>)
    ensures
        match body {
            CreateTableBody::ColumnsAndConstraints { columns } => {
                &&& res is Ok
                &&& all_follow(res->Ok_0@, visible(columns@))
            },
            CreateTableBody::AsSelect(_) => res is Err,
        },
{
    let defs = match body {
        CreateTableBody::ColumnsAndConstraints { columns } => columns,
        CreateTableBody::AsSelect(_) => {
            return Err(());
        },
    };
    let ghost all = defs@;
    let mut res: Vec<Column> = Vec::new();
    for pair in it: defs
        invariant
            it.seq() == all,
            all_follow(res@, visible(all.take(it.index() as int))),
    {
        proof {
            let after = all.take(it.index() + 1);
            assert(after.drop_last() =~= all.take(it.index() as int));
            assert(after.last() == pair);
        }
        let (name, def) = pair;
        if !hidden(&def) {
            let column = column_from_definition(name, def);
            res.push(column);
        }
    }
    proof {
        assert(all.take(all.len() as int) =~= all);
    }
    Ok(res)
}

} // verus!
