//! SQL expressions.

use vstd::prelude::*;

verus! {

/// An identifier or one of several keywords.
#[derive(Debug)]
pub struct Id(pub String);

/// An identifier or a string, as written, with its quotes if it has any.
#[derive(Debug)]
pub struct Name(pub String);

/// A numeric literal.
#[derive(Debug)]
pub struct Number {
    /// The literal as written.
    pub text: String,
    /// The bits of the IEEE 754 double that the text reads as, if it reads as one.
    pub value: Option<u64>,
}

/// A literal.
#[derive(Debug)]
pub enum Literal {
    Numeric(Number),
    String(String),
    Blob(String),
    Keyword(String),
    Null,
    CurrentDate,
    CurrentTime,
    CurrentTimestamp,
}

/// A textual comparison operator.
#[derive(Copy, Clone, Debug, PartialEq, Eq, Structural)]
pub enum LikeOperator {
    Glob,
    Like,
    Match,
    Regexp,
}

/// A binary operator.
#[derive(Copy, Clone, Debug, PartialEq, Eq, Structural)]
pub enum Operator {
    Add,
    And,
    ArrowRight,
    ArrowRightShift,
    BitwiseAnd,
    BitwiseOr,
    BitwiseNot,
    Concat,
    Equals,
    Divide,
    Greater,
    GreaterEquals,
    Is,
    IsNot,
    LeftShift,
    Less,
    LessEquals,
    Modulus,
    Multiply,
    NotEquals,
    Or,
    RightShift,
    Subtract,
}

/// A unary operator.
#[derive(Copy, Clone, Debug, PartialEq, Eq, Structural)]
pub enum UnaryOperator {
    BitwiseNot,
    Negative,
    Not,
    Positive,
}

/// `DISTINCT` or `ALL`.
#[derive(Copy, Clone, Debug, PartialEq, Eq, Structural)]
pub enum Distinctness {
    Distinct,
    All,
}

/// `ASC` or `DESC`.
#[derive(Copy, Clone, Debug, PartialEq, Eq, Structural)]
pub enum SortOrder {
    Asc,
    Desc,
}

/// `NULLS FIRST` or `NULLS LAST`.
#[derive(Copy, Clone, Debug, PartialEq, Eq, Structural)]
pub enum NullsOrder {
    First,
    Last,
}

/// A conflict resolution.
#[derive(Copy, Clone, Debug, PartialEq, Eq, Structural)]
pub enum ResolveType {
    Rollback,
    Abort,
    Fail,
    Ignore,
    Replace,
}

/// The unit of a window frame.
#[derive(Copy, Clone, Debug, PartialEq, Eq, Structural)]
pub enum FrameMode {
    Groups,
    Range,
    Rows,
}

/// What a window frame leaves out.
#[derive(Copy, Clone, Debug, PartialEq, Eq, Structural)]
pub enum FrameExclude {
    NoOthers,
    CurrentRow,
    Group,
    Ties,
}

/// Stands for a `SELECT` statement: equal numbers for equal statements, and
/// different numbers for different ones.
#[derive(Copy, Clone, Debug, PartialEq, Eq, Structural)]
pub struct Select(pub u64);

/// A possibly qualified, possibly aliased name.
#[derive(Debug)]
pub struct QualifiedName {
    pub db_name: Option<Name>,
    pub name: Name,
    pub alias: Option<Name>,
}

/// A column type.
#[derive(Debug)]
pub struct Type {
    pub name: String,
    pub size: Option<TypeSize>,
}

/// The size limits of a column type.
#[derive(Debug)]
pub enum TypeSize {
    MaxSize(Box<Expr>),
    TypeSize(Box<Expr>, Box<Expr>),
}

/// A term of an `ORDER BY`.
#[derive(Debug)]
pub struct SortedColumn {
    pub expr: Expr,
    pub order: Option<SortOrder>,
    pub nulls: Option<NullsOrder>,
}

/// What follows the arguments of a function call.
#[derive(Debug)]
pub struct FunctionTail {
    pub filter_clause: Option<Box<Expr>>,
    pub over_clause: Option<Box<Over>>,
}

/// An `OVER` clause.
#[derive(Debug)]
pub enum Over {
    Window(Window),
    Name(Name),
}

/// A window definition.
#[derive(Debug)]
pub struct Window {
    pub base: Option<Name>,
    pub partition_by: Option<Vec<Expr>>,
    pub order_by: Option<Vec<SortedColumn>>,
    pub frame_clause: Option<FrameClause>,
}

/// A window frame.
#[derive(Debug)]
pub struct FrameClause {
    pub mode: FrameMode,
    pub start: FrameBound,
    pub end: Option<FrameBound>,
    pub exclude: Option<FrameExclude>,
}

/// A bound of a window frame.
#[derive(Debug)]
pub enum FrameBound {
    CurrentRow,
    Following(Box<Expr>),
    Preceding(Box<Expr>),
    UnboundedFollowing,
    UnboundedPreceding,
}

/// An expression.
#[derive(Debug)]
#[allow(inconsistent_fields)]
pub enum Expr {
    Between { lhs: Box<Expr>, not: bool, start: Box<Expr>, end: Box<Expr> },
    Binary(Box<Expr>, Operator, Box<Expr>),
    Case {
        base: Option<Box<Expr>>,
        when_then_pairs: Vec<(Expr, Expr)>,
        else_expr: Option<Box<Expr>>,
    },
    Cast { expr: Box<Expr>, target: Option<Type> },
    Collate(Box<Expr>, String),
    DoublyQualified(Name, Name, Name),
    Exists(Box<Select>),
    FunctionCall {
        name: Id,
        distinctness: Option<Distinctness>,
        args: Option<Vec<Expr>>,
        order_by: Option<Vec<SortedColumn>>,
        filter_over: Option<FunctionTail>,
    },
    FunctionCallStar { name: Id, filter_over: Option<FunctionTail> },
    Id(Id),
    Column { database: Option<usize>, table: usize, column: usize, is_rowid_alias: bool },
    RowId { database: Option<usize>, table: usize },
    InList { lhs: Box<Expr>, not: bool, rhs: Option<Vec<Expr>> },
    InSelect { lhs: Box<Expr>, not: bool, rhs: Box<Select> },
    InTable { lhs: Box<Expr>, not: bool, rhs: QualifiedName, args: Option<Vec<Expr>> },
    IsNull(Box<Expr>),
    Like {
        lhs: Box<Expr>,
        not: bool,
        op: LikeOperator,
        rhs: Box<Expr>,
        escape: Option<Box<Expr>>,
    },
    Literal(Literal),
    Name(Name),
    NotNull(Box<Expr>),
    Parenthesized(Vec<Expr>),
    Qualified(Name, Name),
    Raise(ResolveType, Option<Box<Expr>>),
    Subquery(Box<Select>),
    Unary(UnaryOperator, Box<Expr>),
    Variable(String),
}

impl Operator {
    /// The operators whose operands can change places.
    pub open spec fn commutes(self) -> bool {
        ||| self == Operator::Add
        ||| self == Operator::Multiply
        ||| self == Operator::BitwiseAnd
        ||| self == Operator::BitwiseOr
        ||| self == Operator::Equals
        ||| self == Operator::NotEquals
    }

    /// Tells whether the order of the operands can be ignored.
    pub fn is_commutative(&self) -> (res: bool)
        ensures
            res == self.commutes(),
    {
        matches!(
            *self,
            Operator::Add
            | Operator::Multiply
            | Operator::BitwiseAnd
            | Operator::BitwiseOr
            | Operator::Equals
            | Operator::NotEquals
        )
    }
}

} // verus!
