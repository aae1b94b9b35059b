//! What callers can rely on: how the results of calls relate to what was given
//! and to each other.

use vstd::prelude::*;
use vstd::string::*;
use vstd::utf8::*;

use crate::ast::{Expr, Literal, Name, Number, Operator};
use crate::double;
use crate::double::eq_doubles;
use crate::equivalence;
use crate::equivalence::{
    check_literal_equivalency, cmp_numeric_strings, exprs_are_equivalent,
    try_check_literal_equivalency, try_exprs_are_equivalent,
};
use crate::equivalent_parts;
use crate::error::LimboError;
use crate::ident;
use crate::ident::{
    check_ident_equivalency, lone_quote, normalize_ident, strip_quotes,
    try_check_ident_equivalency,
};
use crate::loader::{parse_schema_rows, Phase, SchemaAction, SchemaEvent, SchemaLoader};
use crate::name;
use crate::name::eq_names;
use crate::percent;
use crate::percent::decode_percent;
use crate::reflexivity;
use crate::same;
use crate::same::eq_expr;
use crate::schema;
use crate::schema::{
    affinity_of, columns_from_create_table_body, Column, ColumnConstraint, ColumnDefinition,
    CreateTableBody, Type,
};
use crate::schema_laws;
use crate::symmetry;
use crate::text;
use crate::text_laws;
use crate::transitivity;
use crate::uri;
use crate::uri::{
    is_windows_path, parse_query_params, parse_sqlite_uri, CacheMode, Mode, OpenFlags, OpenOptions,
};
use crate::uri_laws;

verus! {

/// Quotes around an identifier do not change its stored form, nor what it is
/// equivalent to.
pub proof fn stored_forms_ignore_quotes(
    plain: &str,
    quoted: &str,
    other: &str,
    form1: String,
    form2: String,
    same1: bool,
    same2: bool,
)
    requires
        quoted@ == seq!['"'] + plain@ + seq!['"'] || quoted@ == seq!['['] + plain@ + seq![']']
            || quoted@ == seq!['`'] + plain@ + seq!['`'],
        !ident::is_quoted(plain@),
        call_ensures(normalize_ident, (plain,), form1),
        call_ensures(normalize_ident, (quoted,), form2),
        call_ensures(check_ident_equivalency, (plain, other), same1),
        call_ensures(check_ident_equivalency, (quoted, other), same2),
    ensures
        form1@ == form2@,
        same1 == same2,
        form1@ == text::lowered(plain@),
{
    ident::quotes_are_taken_away(plain@);
}

/// Two identifiers in ASCII are equivalent exactly if they are stored alike.
pub proof fn equivalent_identifiers_are_stored_alike(
    a: &str,
    b: &str,
    form1: String,
    form2: String,
    same: bool,
)
    requires
        is_ascii_chars(a@),
        is_ascii_chars(b@),
        !ident::is_lone_quote(a@),
        !ident::is_lone_quote(b@),
        call_ensures(normalize_ident, (a,), form1),
        call_ensures(normalize_ident, (b,), form2),
        call_ensures(check_ident_equivalency, (a, b), same),
    ensures
        same <==> form1@ == form2@,
        forall|i: int| 0 <= i < form1@.len() ==> !('A' <= #[trigger] form1@[i] <= 'Z'),
{
    ident::normal_forms_agree(a@, b@);
    assert(is_ascii_chars(ident::unquoted(a@)));
    text_laws::lower_case_has_no_capitals(ident::unquoted(a@));
}

/// Identifiers, names and literals are compared as the laws on them say, and a
/// comparison that may have no outcome agrees with one that has.
pub proof fn comparisons_agree(
    a: &str,
    b: &str,
    x: &Literal,
    y: &Literal,
    lone: bool,
    stripped: &str,
    ident1: bool,
    ident2: Option<bool>,
    names: Option<bool>,
    literal1: bool,
    literal2: Option<bool>,
)
    requires
        call_ensures(lone_quote, (a,), lone),
        call_ensures(strip_quotes, (a,), stripped),
        call_ensures(check_ident_equivalency, (a, b), ident1),
        call_ensures(try_check_ident_equivalency, (a, b), ident2),
        call_ensures(eq_names, (a, b), names),
        call_ensures(check_literal_equivalency, (x, y), literal1),
        call_ensures(try_check_literal_equivalency, (x, y), literal2),
    ensures
        lone <==> a@ == seq!['"'] || a@ == seq!['`'],
        stripped@ == ident::unquoted(a@),
        ident1 <==> text::same_ignoring_case(ident::unquoted(a@), ident::unquoted(b@)),
        ident2 == ident::compare_idents(a@, b@),
        ident2 is Some ==> ident2 == Some(ident1),
        names == name::compare_names(a@, b@),
        literal2 == Some(literal1),
        literal2 == equivalence::compare_literals(*x, *y),
{
    ident::identifiers_differ_only_in_case(a@, a@);
}

/// Numeric literals are compared as doubles where both read as one, and
/// otherwise as texts.
pub proof fn numbers_are_compared(a: &Number, b: &Number, same: bool, x: u64, y: u64, equal: bool)
    requires
        call_ensures(cmp_numeric_strings, (a, b), same),
        call_ensures(eq_doubles, (x, y), equal),
    ensures
        equal == double::equal(x, y),
        a.value is Some && b.value is Some ==> same == double::equal(a.value->0, b.value->0),
        a.value is None || b.value is None ==> same == (a.text@ == b.text@),
{
}

/// The order of operands can be ignored for six operators.
pub proof fn six_operators_commute(op: &Operator, res: bool)
    requires
        call_ensures(Operator::is_commutative, (op,), res),
    ensures
        res <==> *op == Operator::Add || *op == Operator::Multiply || *op == Operator::BitwiseAnd
            || *op == Operator::BitwiseOr || *op == Operator::Equals || *op == Operator::NotEquals,
{
}

/// Whether two expressions are equivalent does not depend on which comes first;
/// an expression is equivalent to itself unless a literal of it reads as NaN;
/// and what is negated is not equivalent to what is not.
pub proof fn equivalence_of_expressions(
    a: &Expr,
    b: &Expr,
    there: bool,
    back: bool,
    itself: bool,
    tried: Option<bool>,
    equal: Option<bool>,
)
    requires
        call_ensures(exprs_are_equivalent, (a, b), there),
        call_ensures(exprs_are_equivalent, (b, a), back),
        call_ensures(exprs_are_equivalent, (a, a), itself),
        call_ensures(try_exprs_are_equivalent, (a, b), tried),
        call_ensures(eq_expr, (a, b), equal),
    ensures
        equal == same::same_expr(*a, *b),
        there == back,
        tried == Some(there),
        tried == equivalence::compare_exprs(*a, *b),
        reflexivity::reads_no_nan(*a) ==> itself,
        there ==> (*a matches Expr::Like { not: m, .. } ==> (*b matches Expr::Like { not: n, .. }
            ==> m == n)),
        there ==> (*a matches Expr::Between { not: m, .. } ==> (
        *b matches Expr::Between { not: n, .. } ==> m == n)),
        there ==> (*a matches Expr::InList { not: m, .. } ==> (
        *b matches Expr::InList { not: n, .. } ==> m == n)),
        there ==> (*a matches Expr::InSelect { not: m, .. } ==> (
        *b matches Expr::InSelect { not: n, .. } ==> m == n)),
        there ==> (*a matches Expr::InTable { not: m, .. } ==> (
        *b matches Expr::InTable { not: n, .. } ==> m == n)),
{
    symmetry::equivalence_is_symmetric(*a, *b);
    if reflexivity::reads_no_nan(*a) {
        reflexivity::equivalence_is_reflexive(*a);
    }
    if there {
        equivalent_parts::negation_counts(*a, *b);
    }
}

/// Two expressions that are equivalent to a third one are equivalent to each
/// other.
pub proof fn equivalence_is_carried_on(
    a: &Expr,
    b: &Expr,
    c: &Expr,
    first: bool,
    second: bool,
    both: bool,
    reads: spec_fn(Seq<char>) -> Option<u64>,
)
    requires
        call_ensures(exprs_are_equivalent, (a, b), first),
        call_ensures(exprs_are_equivalent, (b, c), second),
        call_ensures(exprs_are_equivalent, (a, c), both),
        transitivity::numbers_read(*a, reads),
        transitivity::numbers_read(*b, reads),
        transitivity::numbers_read(*c, reads),
    ensures
        first && second ==> both,
{
    if first && second {
        transitivity::equivalence_is_transitive(*a, *b, *c, reads);
    }
}

/// A body that takes its columns from a `SELECT` gives none; any other gives one
/// for each definition that is not hidden, in order: a primary key exactly if
/// some constraint says so, not null exactly if some constraint says so, whatever
/// the other constraints are.
pub proof fn columns_say_what_definitions_say(
    body: CreateTableBody,
    res: Result<Vec<Column>, ()>,
    i: int,
)
    requires
        call_ensures(columns_from_create_table_body, (body,), res),
    ensures
        body is AsSelect <==> res is Err,
        body matches CreateTableBody::ColumnsAndConstraints { columns } ==> (res matches Ok(cs) && {
            let defs = schema::visible(columns@);
            &&& cs@.len() == defs.len()
            &&& 0 <= i < cs@.len() ==> {
                let constraints = defs[i].1.constraints@;
                &&& cs@[i].name == Some(defs[i].0.0)
                &&& cs@[i].primary_key <==> exists|k: int|
                    0 <= k < constraints.len() && (#[trigger] constraints[k]) is PrimaryKey
                &&& cs@[i].notnull <==> exists|k: int|
                    0 <= k < constraints.len() && (#[trigger] constraints[k]) is NotNull
                &&& cs@[i].default is Some <==> exists|k: int|
                    0 <= k < constraints.len() && (#[trigger] constraints[k]) is Default
                &&& defs[i].1.col_type is None ==> cs@[i].ty == Type::Null
                &&& defs[i].1.col_type matches Some(ty) ==> cs@[i].ty_str@ == ty.name@ && cs@[i].ty
                    == schema::affinity(text::raised(ty.name@))
                &&& !cs@[i].is_rowid_alias
            }
        }),
{
    if let CreateTableBody::ColumnsAndConstraints { columns } = body {
        if let Ok(cs) = res {
            if 0 <= i < cs@.len() {
                schema_laws::a_column_is_what_its_definition_says(cs@, columns@, i);
            }
        }
    }
}

/// One more constraint that is not `PRIMARY KEY` leaves a primary key one, and
/// makes none of a column that was not.
pub proof fn other_constraints_do_not_make_primary_keys(
    name: Name,
    def: ColumnDefinition,
    more: ColumnDefinition,
    c: ColumnConstraint,
    before: Column,
    after: Column,
)
    requires
        schema::follows(before, name, def),
        schema::follows(after, name, more),
        more.constraints@ == def.constraints@.push(c),
        c !is PrimaryKey,
    ensures
        before.primary_key == after.primary_key,
        c !is NotNull ==> before.notnull == after.notnull,
        before.default is Some ==> before.default == after.default,
        before.default is None && c !is Default ==> after.default is None,
{
    let s = def.constraints@;
    let t = more.constraints@;
    assert(t.drop_last() =~= s);
    assert forall|d: ColumnConstraint| d != c implies s.contains(d) == t.contains(d) by {
        if s.contains(d) {
            let k = choose|k: int| 0 <= k < s.len() && s[k] == d;
            assert(t[k] == d);
        }
        if t.contains(d) {
            let k = choose|k: int| 0 <= k < t.len() && t[k] == d;
            assert(s[k] == d);
        }
    }
}

/// The affinity of a name is that of a declared type.
pub proof fn affinities_are_told(name: &str, res: Type)
    requires
        call_ensures(affinity_of, (name,), res),
    ensures
        res == schema::affinity(name@),
{
}

/// Loading begins with a step if there is a statement, with nothing put off, and
/// is over if there is none.
pub proof fn loading_begins(
    has_rows: bool,
    begun: (SchemaLoader, SchemaAction),
    phase: Phase,
)
    requires
        call_ensures(SchemaLoader::start, (has_rows,), begun),
        call_ensures(SchemaLoader::phase, (&begun.0,), phase),
    ensures
        begun.0@.automatic_indexes.len() == 0,
        has_rows ==> begun.1 == SchemaAction::Step && phase == Phase::Stepping,
        !has_rows ==> begun.1 == SchemaAction::Finish(Ok(())) && phase == Phase::Finished,
        phase == begun.0@.phase,
{
}

/// Decoding leaves plain text alone and undoes percent-encoding, with either
/// before the other.
pub proof fn decoding_goes_part_by_part(
    s: &str,
    plain: Seq<char>,
    e: Seq<char>,
    text: Seq<char>,
    res: String,
)
    requires
        call_ensures(decode_percent, (s,), res),
        !plain.contains('%'),
        percent::is_encoding(e, text),
        s@ == plain + e,
    ensures
        res@ == plain + text,
{
    percent::plain_text_is_left_alone(plain, e);
    percent::decoding_undoes_encoding(e, text, Seq::empty());
    assert(e + Seq::<char>::empty() =~= e);
    assert(text + percent::decoded(Seq::empty()) =~= text);
}

/// What a URI says is what its parts say, or what is wrong with them is said.
pub proof fn uris_say_what_their_parts_say<'a>(
    s: &'a str,
    res: Result<OpenOptions<'a>, LimboError>,
)
    requires
        call_ensures(parse_sqlite_uri, (s,), res),
    ensures
        uri::options_of(s@) matches Ok(o) ==> (res matches Ok(opts) && opts@ == o),
        uri::options_of(s@) matches Err(complaint) ==> (
        res matches Err(LimboError::InvalidArgument(m)) && m@ == complaint),
{
}

/// A path is found again from a URI, however it is percent-encoded, without an
/// authority and after an empty or local one.
pub proof fn paths_are_found_again<'a>(
    s: &'a str,
    authority: Seq<char>,
    e: Seq<char>,
    path: Seq<char>,
    res: Result<OpenOptions<'a>, LimboError>,
)
    requires
        call_ensures(parse_sqlite_uri, (s,), res),
        percent::is_encoding(e, path),
        !e.contains('#'),
        !e.contains('?'),
    ensures
        s@ == "file:"@ + e && !text::begins_with(e, "//"@) ==> (res matches Ok(o) && o.path@
            == path && o.authority is None),
        s@ == "file:"@ + ("//"@ + authority + "/"@ + e) && path.len() > 0 && (authority.len() == 0
            || authority == "localhost"@) ==> (res matches Ok(o) && o.path@ == "/"@ + path),
{
    if s@ == "file:"@ + e && !text::begins_with(e, "//"@) {
        uri_laws::an_encoded_path_is_found_again(e, path);
    }
    if s@ == "file:"@ + ("//"@ + authority + "/"@ + e) && path.len() > 0 && (authority.len() == 0
        || authority == "localhost"@) {
        uri_laws::an_encoded_path_is_found_again_after_an_authority(authority, e, path);
    }
}

/// A mode is read from its name, only one has files created, and a wrong name is
/// said to be wrong.
pub proof fn modes_are_read(
    s: &str,
    res: Result<Mode, LimboError>,
    lower: Option<Mode>,
    mode: Mode,
    flags: OpenFlags,
)
    requires
        call_ensures(Mode::from_str, (s,), res),
        call_ensures(Mode::from_lowercase, (s,), lower),
        call_ensures(Mode::get_flags, (&mode,), flags),
    ensures
        uri::mode_of(s@) matches Some(m) ==> res == Ok::<Mode, LimboError>(m),
        uri::mode_of(s@) is None ==> (res matches Err(LimboError::InvalidArgument(m)) && m@
            == "Invalid mode: '"@ + s@ + "'. Expected one of 'ro', 'rw', 'memory', 'rwc'"@),
        lower == uri::mode_named(s@),
        mode == Mode::ReadWriteCreate <==> flags == OpenFlags::Create,
        mode != Mode::ReadWriteCreate <==> flags == OpenFlags::Empty,
{
}

/// A drive is told by the colon and the slash after its letter.
pub proof fn drives_are_told(path: &str, res: bool)
    requires
        call_ensures(is_windows_path, (path,), res),
    ensures
        res <==> path@.len() >= 3 && path@[1] == ':' && path@[2] == '/',
{
}

/// Query parameters are taken over up to the first that is wrong, and that one
/// is said to be wrong.
pub proof fn parameters_are_taken_over()
    ensures
        forall|query: &str, opts: &mut OpenOptions, res: Result<(), LimboError>|
            #[trigger]
            call_ensures(parse_query_params, (query, opts), res) ==> {
                let (o, complaint) = uri::with_params(opts@, text::parts(query@, '&'));
                &&& final(opts)@ == o
                &&& complaint is None <==> res is Ok
                &&& complaint is Some ==> (res matches Err(LimboError::InvalidArgument(m)) && m@
                    == complaint->0)
            },
{
}

/// What to do next, and what is then waited for, is what the laws on the state
/// of the loader say.
pub proof fn events_lead_to_actions()
    ensures
        forall|loader: &mut SchemaLoader, event: SchemaEvent, action: SchemaAction|
            #[trigger]
            call_ensures(parse_schema_rows, (loader, event), action) ==> {
                let (next, wanted) = loader@.after(event);
                final(loader)@ == next && action == wanted
            },
{
}

/// What is not said is as usual: a file that is created where it is missing, and
/// nothing else known.
pub proof fn what_is_not_said(mode: Mode, opts: OpenOptions, name: &str, cache: CacheMode)
    requires
        call_ensures(<Mode as Default>::default, (), mode),
        call_ensures(<OpenOptions as Default>::default, (), opts),
        call_ensures(<CacheMode as From<&str>>::from, (name,), cache),
    ensures
        mode == Mode::ReadWriteCreate,
        opts.mode == Mode::ReadWriteCreate,
        opts.path@.len() == 0,
        opts.authority is None,
        opts.fragment is None,
        opts.vfs is None,
        opts.modeof is None,
        opts.cache is None,
        opts.immutable is None,
        cache == CacheMode::Shared <==> name@ == "shared"@,
{
}

} // verus!
