//! What holds of the columns of every table.

use vstd::prelude::*;
use vstd::string::*;

use crate::ast::Name;
use crate::schema;
use crate::schema::{Column, ColumnConstraint, ColumnDefinition, Type};
use crate::text;
use crate::text_laws;

verus! {

/// Some constraint is `PRIMARY KEY` exactly if the column is a primary key, some
/// is `NOT NULL` exactly if it is not null, whatever the other constraints are;
/// its default is that of the first `DEFAULT`, if there is one. It has the name
/// and the type that the definition gives it.
pub proof fn a_column_is_what_its_definition_says(
    columns: Seq<Column>,
    definitions: Seq<(Name, ColumnDefinition)>,
    i: int,
)
    requires
        schema::all_follow(columns, schema::visible(definitions)),
        0 <= i < columns.len(),
    ensures
        columns.len() == schema::visible(definitions).len(),
        ({
            let c = columns[i];
            let (name, def) = schema::visible(definitions)[i];
            let cs = def.constraints@;
            &&& c.name == Some(name.0)
            &&& c.primary_key <==> exists|k: int|
                0 <= k < cs.len() && (#[trigger] cs[k]) is PrimaryKey
            &&& c.notnull <==> exists|k: int| 0 <= k < cs.len() && (#[trigger] cs[k]) is NotNull
            &&& c.default is Some <==> exists|k: int|
                0 <= k < cs.len() && (#[trigger] cs[k]) is Default
            &&& forall|k: int|
                0 <= k < cs.len() && (forall|j: int| 0 <= j < k ==> (#[trigger] cs[j]) !is Default)
                    ==> (#[trigger] cs[k] matches ColumnConstraint::Default(e) ==> c.default
                    == Some(e))
            &&& !c.is_rowid_alias
            &&& def.col_type is None ==> c.ty == Type::Null && c.ty_str@.len() == 0
            &&& def.col_type matches Some(declared) ==> c.ty_str@ == declared.name@ && c.ty
                == schema::affinity(text::raised(declared.name@))
        }),
{
    let c = columns[i];
    let (name, def) = schema::visible(definitions)[i];
    let cs = def.constraints@;
    assert(schema::follows(c, name, def));
    lemma_first_default(cs);
    if exists|k: int| 0 <= k < cs.len() && (#[trigger] cs[k]) is PrimaryKey {
        let k = choose|k: int| 0 <= k < cs.len() && (#[trigger] cs[k]) is PrimaryKey;
        assert(cs[k] == ColumnConstraint::PrimaryKey);
    }
    if exists|k: int| 0 <= k < cs.len() && (#[trigger] cs[k]) is NotNull {
        let k = choose|k: int| 0 <= k < cs.len() && (#[trigger] cs[k]) is NotNull;
        assert(cs[k] == ColumnConstraint::NotNull);
    }
}

proof fn lemma_first_default(cs: Seq<ColumnConstraint>)
    ensures
        schema::first_default(cs) is Some <==> exists|k: int|
            0 <= k < cs.len() && (#[trigger] cs[k]) is Default,
        forall|k: int|
            0 <= k < cs.len() && (forall|j: int| 0 <= j < k ==> (#[trigger] cs[j]) !is Default)
                ==> (#[trigger] cs[k] matches ColumnConstraint::Default(e)
                ==> schema::first_default(cs) == Some(e)),
    decreases cs.len(),
{
    if cs.len() > 0 {
        let front = cs.drop_last();
        lemma_first_default(front);
        assert(forall|k: int| 0 <= k < front.len() ==> front[k] == cs[k]);
        if exists|k: int| 0 <= k < front.len() && (#[trigger] front[k]) is Default {
            let k = choose|k: int| 0 <= k < front.len() && (#[trigger] front[k]) is Default;
            assert(cs[k] is Default);
        }
        if cs.last() is Default {
            assert(cs[cs.len() - 1] is Default);
        }
        assert forall|k: int|
            0 <= k < cs.len() && (forall|j: int| 0 <= j < k ==> (#[trigger] cs[j])
                !is Default) implies (#[trigger] cs[k] matches ColumnConstraint::Default(e)
            ==> schema::first_default(cs) == Some(e)) by {
            if k < front.len() {
                assert(front[k] == cs[k]);
                assert forall|j: int| 0 <= j < k implies (#[trigger] front[j]) !is Default by {
                    assert(front[j] == cs[j]);
                }
            }
        }
        if exists|k: int| 0 <= k < cs.len() && (#[trigger] cs[k]) is Default {
            let k = choose|k: int| 0 <= k < cs.len() && (#[trigger] cs[k]) is Default;
            if k < front.len() {
                assert(front[k] is Default);
            }
        }
    }
}

/// A column is left out exactly if `HIDDEN` stands in the name of its type, and
/// the others keep their order.
pub proof fn only_hidden_columns_are_left_out(
    first: Seq<(Name, ColumnDefinition)>,
    one: (Name, ColumnDefinition),
    second: Seq<(Name, ColumnDefinition)>,
)
    ensures
        schema::visible(first + second) == schema::visible(first) + schema::visible(second),
        schema::visible(seq![one]) == if (one.1.col_type matches Some(ty) && exists|
            x: Seq<char>,
            y: Seq<char>,
        | ty.name@ == #[trigger] (x + "HIDDEN"@ + y)) {
            Seq::empty()
        } else {
            seq![one]
        },
        schema::visible(Seq::empty()).len() == 0,
{
    lemma_visible_joined(first, second);
    assert(seq![one].drop_last() =~= Seq::empty());
    assert(schema::visible(Seq::empty()) =~= Seq::empty());
    assert(Seq::<(Name, ColumnDefinition)>::empty().push(one) =~= seq![one]);
    if let Some(ty) = one.1.col_type {
        text_laws::what_occurs_is_a_part("HIDDEN"@, ty.name@);
    }
}

proof fn lemma_visible_joined(
    first: Seq<(Name, ColumnDefinition)>,
    second: Seq<(Name, ColumnDefinition)>,
)
    ensures
        schema::visible(first + second) == schema::visible(first) + schema::visible(second),
    decreases second.len(),
{
    if second.len() == 0 {
        assert(first + second =~= first);
        assert(schema::visible(first) + second =~= schema::visible(first));
    } else {
        lemma_visible_joined(first, second.drop_last());
        assert((first + second).drop_last() =~= first + second.drop_last());
        assert(schema::visible(first + second) =~= schema::visible(first) + schema::visible(
            second,
        ));
    }
}

/// A type with `INT` in its name is an integer, whatever else stands there.
pub proof fn integers_come_first(x: Seq<char>, y: Seq<char>)
    ensures
        schema::affinity(x + "INT"@ + y) == Type::Integer,
{
    text_laws::what_occurs_is_a_part("INT"@, x + "INT"@ + y);
}

/// Each affinity has its words: `INT`; `CHAR`, `CLOB` and `TEXT`; `BLOB` or no
/// name at all; `REAL`, `FLOA` and `DOUB`. The first whose word stands in the
/// name counts, and without any the type is numeric.
pub proof fn the_first_word_decides(name: Seq<char>)
    ensures
        ({
            let a = schema::affinity(name);
            let is_int = text::occurs("INT"@, name);
            let is_text = text::occurs("CHAR"@, name) || text::occurs("CLOB"@, name) || text::occurs(
                "TEXT"@,
                name,
            );
            let is_blob = text::occurs("BLOB"@, name) || name.len() == 0;
            let is_real = text::occurs("REAL"@, name) || text::occurs("FLOA"@, name) || text::occurs(
                "DOUB"@,
                name,
            );
            &&& a == Type::Integer <==> is_int
            &&& a == Type::Text <==> !is_int && is_text
            &&& a == Type::Blob <==> !is_int && !is_text && is_blob
            &&& a == Type::Real <==> !is_int && !is_text && !is_blob && is_real
            &&& a == Type::Numeric <==> !is_int && !is_text && !is_blob && !is_real
        }),
{
}

} // verus!
