//! The syntax-tree subset that the walk interprets.
//!
//! Each syntactic form the engine cares about is a closed sum type, so that
//! an unhandled shape is a compile-time-visible gap.  Forms that carry no
//! lineage information are collapsed into a single opaque variant of the
//! enclosing enum; the walk either skips them silently or, where silently
//! skipping would yield an incomplete lineage result, fails on them.

use vstd::prelude::*;
use crate::meta::ObjectName;

verus! {

/// A table source inside a `FROM` clause, a join, `USING`, or a
/// `MERGE`/`UPDATE`/`DELETE` target.
#[derive(Debug)]
pub enum TableFactorAst {
    /// A plain named table.
    Table { name: ObjectName },
    /// A parenthesized subquery, optionally aliased.
    Derived { subquery: Box<QueryAst>, alias: Option<String> },
    /// Any other source (a table-valued function, an unhandled join-target
    /// form).  The walk fails on it rather than under-report inputs.
    Unsupported,
}

/// One `FROM` item: a relation and the join targets attached to it.
#[derive(Debug)]
pub struct TableWithJoinsAst {
    pub relation: TableFactorAst,
    pub joins: Vec<TableFactorAst>,
}

/// One common table expression of a `WITH` block.
#[derive(Debug)]
pub struct CteAst {
    pub alias: String,
    pub query: QueryAst,
}

/// The `WITH` block of a query.
#[derive(Debug)]
pub struct WithAst {
    pub cte_tables: Vec<CteAst>,
}

/// An `OVER (...)` window specification: only its expressions matter for
/// lineage, since both partitioning and ordering can reference ancestor
/// columns.
#[derive(Debug)]
pub struct WindowSpecAst {
    pub partition_by: Vec<ExprAst>,
    pub order_by: Vec<ExprAst>,
}

/// The expression inside a function argument.
#[derive(Debug)]
pub enum FunctionArgExprAst {
    Expr(ExprAst),
    /// A wildcard or other argument form with no lineage contribution.
    Opaque,
}

/// A positional or named function argument.
#[derive(Debug)]
pub enum FunctionArgAst {
    Named { name: String, arg: FunctionArgExprAst },
    Unnamed(FunctionArgExprAst),
}

/// A function call, with an optional window specification.
#[derive(Debug)]
pub struct FunctionAst {
    pub args: Vec<FunctionArgAst>,
    pub over: Option<WindowSpecAst>,
}

/// An expression, restricted to the forms relevant to data flow; every other
/// form is the opaque leaf.
#[derive(Debug)]
pub enum ExprAst {
    /// A plain column identifier.
    Identifier(String),
    /// A qualified identifier; its last segment is the column name.
    CompoundIdentifier(Vec<String>),
    /// A scalar subquery.
    Subquery(Box<QueryAst>),
    /// `expr [NOT] IN (subquery)`; only the subquery is walked.
    InSubquery { expr: Box<ExprAst>, subquery: Box<QueryAst>, negated: bool },
    /// A binary operator application.
    BinaryOp { left: Box<ExprAst>, right: Box<ExprAst> },
    /// A unary operator application.
    UnaryOp { expr: Box<ExprAst> },
    /// A `CASE` expression; only its condition expressions are walked.
    Case {
        operand: Option<Box<ExprAst>>,
        conditions: Vec<ExprAst>,
        results: Vec<ExprAst>,
        else_result: Option<Box<ExprAst>>,
    },
    /// A function call.
    Function(FunctionAst),
    /// Any other expression form: an opaque leaf with no lineage
    /// contribution.
    Opaque,
}

/// One projection item of a `SELECT`.
#[derive(Debug)]
pub enum SelectItemAst {
    /// A bare expression.
    UnnamedExpr(ExprAst),
    /// An expression with an explicit `AS` alias.
    ExprWithAlias { expr: ExprAst, alias: String },
    /// A wildcard or other projection form; contributes nothing.
    Opaque,
}

/// A `SELECT` statement body.
#[derive(Debug)]
pub struct SelectAst {
    pub projection: Vec<SelectItemAst>,
    pub into: Option<ObjectName>,
    pub from: Vec<TableWithJoinsAst>,
}

/// The body of a query.
#[derive(Debug)]
pub enum SetExprAst {
    Select(Box<SelectAst>),
    Query(Box<QueryAst>),
    SetOperation { left: Box<SetExprAst>, right: Box<SetExprAst> },
    /// A literal `VALUES` list: constants have no ancestor columns.
    Values,
    /// An `INSERT` appearing as a query body.
    Insert(Box<StatementAst>),
}

/// A query: an optional `WITH` block, then the body.
#[derive(Debug)]
pub struct QueryAst {
    pub with: Option<WithAst>,
    pub body: SetExprAst,
}

/// A top-level statement of the supported DML/DDL subset.
#[derive(Debug)]
pub enum StatementAst {
    Query(Box<QueryAst>),
    Insert { table_name: ObjectName, source: Box<QueryAst> },
    Merge { table: TableFactorAst, source: TableFactorAst },
    CreateTable {
        name: ObjectName,
        query: Option<Box<QueryAst>>,
        like: Option<ObjectName>,
        clone_source: Option<ObjectName>,
    },
    Update {
        table: TableWithJoinsAst,
        from: Option<TableWithJoinsAst>,
        selection: Option<ExprAst>,
    },
    Delete {
        table: TableFactorAst,
        using: Option<TableFactorAst>,
        selection: Option<ExprAst>,
    },
    /// Any statement kind outside the supported subset: deliberately ignored,
    /// producing no lineage and no error.
    Other,
}

} // verus!
