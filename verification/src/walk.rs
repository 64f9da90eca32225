//! The specification of the walk: one pure function per syntactic node kind,
//! threading the context view exactly as the dispatch engine threads the
//! executable context.
//!
//! Scopes are stack-disciplined: a rule that establishes a table or column
//! scope restores the enclosing scope when it returns, so a nested `SELECT`
//! never disturbs the scope of the query around it.

use vstd::prelude::*;
use crate::ast::{CteAst, ExprAst, FunctionArgAst, FunctionArgExprAst, FunctionAst, QueryAst, SelectAst, SelectItemAst, SetExprAst, StatementAst, TableFactorAst, TableWithJoinsAst, WindowSpecAst, WithAst};
use crate::context::CtxView;
use crate::meta::{ColumnView, DescendantView};

verus! {

/// Why a walk failed.  Any failure aborts the whole walk; statement kinds
/// outside the supported subset are not failures, they are silent no-ops.
#[derive(Clone, Copy, Debug, PartialEq, Eq, Structural)]
pub enum WalkErr {
    /// A table factor stood where only a plain table or a subquery is
    /// supported, e.g. a table-valued function as a join target.  Silently
    /// treating it as "no input" would under-report the lineage.
    UnsupportedTableSource,
    /// The target of `MERGE`/`UPDATE`/`DELETE` is not a plain named table.
    UnsupportedTarget,
}

impl WalkErr {
    /// A short description of the failure.
    pub fn describe(&self) -> (r: &'static str)
        ensures
            (*self is UnsupportedTableSource) ==> r@ == "table factor other than table or subquery not implemented"@,
            (*self is UnsupportedTarget) ==> r@ == "name can be taken only from a plain table target"@,
    {
        match self {
            WalkErr::UnsupportedTableSource => "table factor other than table or subquery not implemented",
            WalkErr::UnsupportedTarget => "name can be taken only from a plain table target",
        }
    }
}

/// The descendant under which a bare projection expression records its
/// ancestors: an identifier names itself, a qualified identifier names its
/// last segment, anything else is anonymous.
pub open spec fn projection_descendant(e: ExprAst) -> DescendantView {
    match e {
        ExprAst::Identifier(id) => DescendantView::Named(id@),
        ExprAst::CompoundIdentifier(ids) => if ids@.len() > 0 {
            DescendantView::Named(ids@.last()@)
        } else {
            DescendantView::Unnamed
        },
        _ => DescendantView::Unnamed,
    }
}

/// Records one ancestor column for the active descendant, attributed to the
/// table currently in scope; with no active descendant nothing is recorded.
pub open spec fn record_ancestor(c: CtxView, name: Seq<char>) -> CtxView {
    match c.column_scope {
        Some(d) => c.with_ancestors(d, seq![ColumnView { name: name, table: c.table_scope }]),
        None => c,
    }
}

/// The walk of a top-level statement.
pub open spec fn walk_statement(c: CtxView, s: StatementAst) -> Result<CtxView, WalkErr>
    decreases s, 0int,
{
    match s {
        StatementAst::Query(q) => walk_query(c, *q),
        StatementAst::Insert { table_name, source } => match walk_query(c, *source) {
            Ok(c1) => Ok(c1.with_output(c1.table_of(table_name@))),
            Err(e) => Err(e),
        },
        StatementAst::Merge { table, source } => match table {
            TableFactorAst::Table { name } => walk_table_factor(c.with_output(c.table_of(name@)), source),
            _ => Err(WalkErr::UnsupportedTarget),
        },
        StatementAst::CreateTable { name, query, like, clone_source } => {
            let r1 = match query {
                Some(q) => walk_query(c, *q),
                None => Ok(c),
            };
            match r1 {
                Ok(c1) => {
                    let c2 = match like {
                        Some(l) => c1.with_input(c1.table_of(l@)),
                        None => c1,
                    };
                    let c3 = match clone_source {
                        Some(cl) => c2.with_input(c2.table_of(cl@)),
                        None => c2,
                    };
                    Ok(c3.with_output(c3.table_of(name@)))
                },
                Err(e) => Err(e),
            }
        },
        StatementAst::Update { table, from, selection } => match table.relation {
            TableFactorAst::Table { name } => {
                let c1 = c.with_output(c.table_of(name@));
                let r2 = match from {
                    Some(t) => walk_table_with_joins(c1, t),
                    None => Ok(c1),
                };
                match r2 {
                    Ok(c2) => match selection {
                        Some(e) => walk_expr(c2, e),
                        None => Ok(c2),
                    },
                    Err(e) => Err(e),
                }
            },
            _ => Err(WalkErr::UnsupportedTarget),
        },
        StatementAst::Delete { table, using, selection } => match table {
            TableFactorAst::Table { name } => {
                let c1 = c.with_output(c.table_of(name@));
                let r2 = match using {
                    Some(u) => walk_table_factor(c1, u),
                    None => Ok(c1),
                };
                match r2 {
                    Ok(c2) => match selection {
                        Some(e) => walk_expr(c2, e),
                        None => Ok(c2),
                    },
                    Err(e) => Err(e),
                }
            },
            _ => Err(WalkErr::UnsupportedTarget),
        },
        StatementAst::Other => Ok(c),
    }
}

/// The walk of a query: the `WITH` block first, then the body.
pub open spec fn walk_query(c: CtxView, q: QueryAst) -> Result<CtxView, WalkErr>
    decreases q, 0int,
{
    let r1 = match q.with {
        Some(w) => walk_with(c, w),
        None => Ok(c),
    };
    match r1 {
        Ok(c1) => walk_set_expr(c1, q.body),
        Err(e) => Err(e),
    }
}

/// The walk of a `WITH` block: each CTE records its name as an alias, then
/// its defining query is walked like an ordinary subquery.
pub open spec fn walk_with(c: CtxView, w: WithAst) -> Result<CtxView, WalkErr>
    decreases w, 0int,
{
    walk_ctes_from(c, w.cte_tables@, 0)
}

pub open spec fn walk_ctes_from(c: CtxView, ctes: Seq<CteAst>, i: int) -> Result<CtxView, WalkErr>
    decreases ctes, ctes.len() - i,
{
    if 0 <= i < ctes.len() {
        match walk_query(c.with_alias(ctes[i].alias@), ctes[i].query) {
            Ok(c1) => walk_ctes_from(c1, ctes, i + 1),
            Err(e) => Err(e),
        }
    } else {
        Ok(c)
    }
}

/// The walk of a query body.  Both operands of a set operation are walked;
/// a literal `VALUES` list contributes nothing.
pub open spec fn walk_set_expr(c: CtxView, e: SetExprAst) -> Result<CtxView, WalkErr>
    decreases e, 0int,
{
    match e {
        SetExprAst::Select(sel) => walk_select(c, *sel),
        SetExprAst::Query(q) => walk_query(c, *q),
        SetExprAst::SetOperation { left, right } => match walk_set_expr(c, *left) {
            Ok(c1) => walk_set_expr(c1, *right),
            Err(e) => Err(e),
        },
        SetExprAst::Values => Ok(c),
        SetExprAst::Insert(st) => walk_statement(c, *st),
    }
}

/// The table scope a `SELECT` establishes on entry: the first `FROM` item's
/// plain table (only); with no such table the enclosing scope stays.
pub open spec fn select_scoped(c: CtxView, sel: SelectAst) -> CtxView {
    if sel.from@.len() > 0 {
        match sel.from@[0].relation {
            TableFactorAst::Table { name } => c.with_table_scope(Some(c.table_of(name@))),
            _ => c,
        }
    } else {
        c
    }
}

/// The walk of a `SELECT`: establish the table scope from the first `FROM`
/// item's plain table (only), walk each projection item, record a `SELECT
/// INTO` target as an output, walk every `FROM` relation and join target,
/// and restore the enclosing table scope on exit.
pub open spec fn walk_select(c: CtxView, sel: SelectAst) -> Result<CtxView, WalkErr>
    decreases sel, 0int,
{
    let c0 = select_scoped(c, sel);
    match walk_projections_from(c0, sel.projection@, 0) {
        Ok(c1) => {
            let c2 = match sel.into {
                Some(n) => c1.with_output(c1.table_of(n@)),
                None => c1,
            };
            match walk_from_tables_from(c2, sel.from@, 0) {
                Ok(c3) => Ok(c3.with_table_scope(c.table_scope)),
                Err(e) => Err(e),
            }
        },
        Err(e) => Err(e),
    }
}

/// The walk of one projection item: establish the descendant column scope,
/// walk the expression for ancestor discovery, register an explicit alias,
/// and restore the enclosing column scope.
pub open spec fn walk_projection(c: CtxView, item: SelectItemAst) -> Result<CtxView, WalkErr>
    decreases item, 0int,
{
    match item {
        SelectItemAst::UnnamedExpr(e) => {
            match walk_expr(c.with_column_scope(Some(projection_descendant(e))), e) {
                Ok(c1) => Ok(c1.with_column_scope(c.column_scope)),
                Err(err) => Err(err),
            }
        },
        SelectItemAst::ExprWithAlias { expr, alias } => {
            match walk_expr(c.with_column_scope(Some(DescendantView::Named(alias@))), expr) {
                Ok(c1) => Ok(c1.with_alias(alias@).with_column_scope(c.column_scope)),
                Err(err) => Err(err),
            }
        },
        SelectItemAst::Opaque => Ok(c),
    }
}

pub open spec fn walk_projections_from(c: CtxView, items: Seq<SelectItemAst>, i: int) -> Result<CtxView, WalkErr>
    decreases items, items.len() - i,
{
    if 0 <= i < items.len() {
        match walk_projection(c, items[i]) {
            Ok(c1) => walk_projections_from(c1, items, i + 1),
            Err(e) => Err(e),
        }
    } else {
        Ok(c)
    }
}

/// The walk of an expression in lineage-extraction mode: only the forms
/// relevant to data flow are interpreted; every other form is an opaque
/// leaf with no lineage contribution.
pub open spec fn walk_expr(c: CtxView, e: ExprAst) -> Result<CtxView, WalkErr>
    decreases e, 0int,
{
    match e {
        ExprAst::Identifier(id) => Ok(record_ancestor(c, id@)),
        ExprAst::CompoundIdentifier(ids) => if ids@.len() > 0 {
            Ok(record_ancestor(c, ids@.last()@))
        } else {
            Ok(c)
        },
        ExprAst::Subquery(q) => walk_query(c, *q),
        ExprAst::InSubquery { expr: _, subquery, negated: _ } => walk_query(c, *subquery),
        ExprAst::BinaryOp { left, right } => match walk_expr(c, *left) {
            Ok(c1) => walk_expr(c1, *right),
            Err(err) => Err(err),
        },
        ExprAst::UnaryOp { expr } => walk_expr(c, *expr),
        ExprAst::Case { operand: _, conditions, results: _, else_result: _ } =>
            walk_exprs_from(c, conditions@, 0),
        ExprAst::Function(f) => walk_function(c, f),
        ExprAst::Opaque => Ok(c),
    }
}

pub open spec fn walk_exprs_from(c: CtxView, es: Seq<ExprAst>, i: int) -> Result<CtxView, WalkErr>
    decreases es, es.len() - i,
{
    if 0 <= i < es.len() {
        match walk_expr(c, es[i]) {
            Ok(c1) => walk_exprs_from(c1, es, i + 1),
            Err(e) => Err(e),
        }
    } else {
        Ok(c)
    }
}

/// The walk of a function call: every argument expression, then the window
/// specification if one is attached.
pub open spec fn walk_function(c: CtxView, f: FunctionAst) -> Result<CtxView, WalkErr>
    decreases f, 0int,
{
    match walk_fn_args_from(c, f.args@, 0) {
        Ok(c1) => match f.over {
            Some(w) => walk_window(c1, w),
            None => Ok(c1),
        },
        Err(e) => Err(e),
    }
}

pub open spec fn walk_fn_args_from(c: CtxView, args: Seq<FunctionArgAst>, i: int) -> Result<CtxView, WalkErr>
    decreases args, args.len() - i,
{
    if 0 <= i < args.len() {
        match walk_fn_arg(c, args[i]) {
            Ok(c1) => walk_fn_args_from(c1, args, i + 1),
            Err(e) => Err(e),
        }
    } else {
        Ok(c)
    }
}

pub open spec fn walk_fn_arg(c: CtxView, a: FunctionArgAst) -> Result<CtxView, WalkErr>
    decreases a, 0int,
{
    match a {
        FunctionArgAst::Named { name: _, arg } => walk_fn_arg_expr(c, arg),
        FunctionArgAst::Unnamed(arg) => walk_fn_arg_expr(c, arg),
    }
}

pub open spec fn walk_fn_arg_expr(c: CtxView, a: FunctionArgExprAst) -> Result<CtxView, WalkErr>
    decreases a, 0int,
{
    match a {
        FunctionArgExprAst::Expr(e) => walk_expr(c, e),
        FunctionArgExprAst::Opaque => Ok(c),
    }
}

/// The walk of a window specification: partition-by expressions, then
/// order-by expressions, since both can reference ancestor columns.
pub open spec fn walk_window(c: CtxView, w: WindowSpecAst) -> Result<CtxView, WalkErr>
    decreases w, 0int,
{
    match walk_exprs_from(c, w.partition_by@, 0) {
        Ok(c1) => walk_exprs_from(c1, w.order_by@, 0),
        Err(e) => Err(e),
    }
}

/// The walk of a table source: a plain table becomes an input; a derived
/// table is walked as a subquery and its alias, if any, is recorded; any
/// other shape fails the whole walk.
pub open spec fn walk_table_factor(c: CtxView, tf: TableFactorAst) -> Result<CtxView, WalkErr>
    decreases tf, 0int,
{
    match tf {
        TableFactorAst::Table { name } => Ok(c.with_input(c.table_of(name@))),
        TableFactorAst::Derived { subquery, alias } => match walk_query(c, *subquery) {
            Ok(c1) => Ok(match alias {
                Some(a) => c1.with_alias(a@),
                None => c1,
            }),
            Err(e) => Err(e),
        },
        TableFactorAst::Unsupported => Err(WalkErr::UnsupportedTableSource),
    }
}

/// The walk of one `FROM` item: the relation, then each join target.
pub open spec fn walk_table_with_joins(c: CtxView, t: TableWithJoinsAst) -> Result<CtxView, WalkErr>
    decreases t, 0int,
{
    match walk_table_factor(c, t.relation) {
        Ok(c1) => walk_joins_from(c1, t.joins@, 0),
        Err(e) => Err(e),
    }
}

pub open spec fn walk_joins_from(c: CtxView, js: Seq<TableFactorAst>, i: int) -> Result<CtxView, WalkErr>
    decreases js, js.len() - i,
{
    if 0 <= i < js.len() {
        match walk_table_factor(c, js[i]) {
            Ok(c1) => walk_joins_from(c1, js, i + 1),
            Err(e) => Err(e),
        }
    } else {
        Ok(c)
    }
}

pub open spec fn walk_from_tables_from(c: CtxView, ts: Seq<TableWithJoinsAst>, i: int) -> Result<CtxView, WalkErr>
    decreases ts, ts.len() - i,
{
    if 0 <= i < ts.len() {
        match walk_table_with_joins(c, ts[i]) {
            Ok(c1) => walk_from_tables_from(c1, ts, i + 1),
            Err(e) => Err(e),
        }
    } else {
        Ok(c)
    }
}

} // verus!
