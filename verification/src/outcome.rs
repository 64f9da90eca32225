//! Outcome independence, proved over every node kind: whether a walk
//! succeeds, and with which error it fails, is decided by the statement's
//! shape alone.  The context only accumulates; it never turns a supported
//! statement into a failure or the other way around.

use vstd::prelude::*;
use crate::ast::{CteAst, ExprAst, FunctionArgAst, FunctionArgExprAst, FunctionAst, QueryAst, SelectAst, SelectItemAst, SetExprAst, StatementAst, TableFactorAst, TableWithJoinsAst, WindowSpecAst, WithAst};
use crate::context::CtxView;
use crate::walk::{WalkErr, select_scoped, walk_ctes_from, walk_expr, walk_exprs_from, walk_fn_arg, walk_fn_arg_expr, walk_fn_args_from, walk_from_tables_from, walk_function, walk_joins_from, walk_projection, walk_projections_from, walk_query, walk_select, walk_set_expr, walk_statement, walk_table_factor, walk_table_with_joins, walk_window, walk_with};

verus! {

/// Two walk results with the same outcome: both succeed, or both fail with
/// the same error.
pub open spec fn same_outcome(a: Result<CtxView, WalkErr>, b: Result<CtxView, WalkErr>) -> bool {
    &&& (a is Ok) == (b is Ok)
    &&& (a is Err ==> a->Err_0 == b->Err_0)
}

/// Whether a statement walk succeeds, and with which error it fails, does
/// not depend on the context it is run in.
pub proof fn lemma_outcome_statement(c1: CtxView, c2: CtxView, s: StatementAst)
    ensures
        same_outcome(walk_statement(c1, s), walk_statement(c2, s)),
    decreases s, 1int,
{
    match s {
        StatementAst::Query(q) => lemma_outcome_query(c1, c2, *q),
        StatementAst::Insert { table_name: _, source } => lemma_outcome_query(c1, c2, *source),
        StatementAst::Merge { table, source } => {
            if let TableFactorAst::Table { name } = table {
                lemma_outcome_table_factor(
                    c1.with_output(c1.table_of(name@)),
                    c2.with_output(c2.table_of(name@)),
                    source,
                );
            }
        },
        StatementAst::CreateTable { name: _, query, like: _, clone_source: _ } => {
            match query {
                Some(q) => lemma_outcome_query(c1, c2, *q),
                None => {},
            }
        },
        StatementAst::Update { table, from, selection } => {
            if let TableFactorAst::Table { name } = table.relation {
                let d1 = c1.with_output(c1.table_of(name@));
                let d2 = c2.with_output(c2.table_of(name@));
                match from {
                    Some(t) => {
                        lemma_outcome_table_with_joins(d1, d2, t);
                        if let (Ok(e1), Ok(e2)) = (walk_table_with_joins(d1, t), walk_table_with_joins(d2, t)) {
                            match selection {
                                Some(e) => lemma_outcome_expr(e1, e2, e),
                                None => {},
                            }
                        }
                    },
                    None => {
                        match selection {
                            Some(e) => lemma_outcome_expr(d1, d2, e),
                            None => {},
                        }
                    },
                }
            }
        },
        StatementAst::Delete { table, using, selection } => {
            if let TableFactorAst::Table { name } = table {
                let d1 = c1.with_output(c1.table_of(name@));
                let d2 = c2.with_output(c2.table_of(name@));
                match using {
                    Some(u) => {
                        lemma_outcome_table_factor(d1, d2, u);
                        if let (Ok(e1), Ok(e2)) = (walk_table_factor(d1, u), walk_table_factor(d2, u)) {
                            match selection {
                                Some(e) => lemma_outcome_expr(e1, e2, e),
                                None => {},
                            }
                        }
                    },
                    None => {
                        match selection {
                            Some(e) => lemma_outcome_expr(d1, d2, e),
                            None => {},
                        }
                    },
                }
            }
        },
        StatementAst::Other => {},
    }
}

proof fn lemma_outcome_query(c1: CtxView, c2: CtxView, q: QueryAst)
    ensures
        same_outcome(walk_query(c1, q), walk_query(c2, q)),
    decreases q, 1int,
{
    match q.with {
        Some(w) => {
            lemma_outcome_with(c1, c2, w);
            if let (Ok(d1), Ok(d2)) = (walk_with(c1, w), walk_with(c2, w)) {
                lemma_outcome_set_expr(d1, d2, q.body);
            }
        },
        None => lemma_outcome_set_expr(c1, c2, q.body),
    }
}

proof fn lemma_outcome_with(c1: CtxView, c2: CtxView, w: WithAst)
    ensures
        same_outcome(walk_with(c1, w), walk_with(c2, w)),
    decreases w, 1int,
{
    lemma_outcome_ctes_from(c1, c2, w.cte_tables@, 0);
}

proof fn lemma_outcome_ctes_from(c1: CtxView, c2: CtxView, ctes: Seq<CteAst>, i: int)
    ensures
        same_outcome(walk_ctes_from(c1, ctes, i), walk_ctes_from(c2, ctes, i)),
    decreases ctes, ctes.len() - i, 1int,
{
    if 0 <= i < ctes.len() {
        let a1 = c1.with_alias(ctes[i].alias@);
        let a2 = c2.with_alias(ctes[i].alias@);
        lemma_outcome_query(a1, a2, ctes[i].query);
        if let (Ok(d1), Ok(d2)) = (walk_query(a1, ctes[i].query), walk_query(a2, ctes[i].query)) {
            lemma_outcome_ctes_from(d1, d2, ctes, i + 1);
        }
    }
}

proof fn lemma_outcome_set_expr(c1: CtxView, c2: CtxView, e: SetExprAst)
    ensures
        same_outcome(walk_set_expr(c1, e), walk_set_expr(c2, e)),
    decreases e, 1int,
{
    match e {
        SetExprAst::Select(sel) => lemma_outcome_select(c1, c2, *sel),
        SetExprAst::Query(q) => lemma_outcome_query(c1, c2, *q),
        SetExprAst::SetOperation { left, right } => {
            lemma_outcome_set_expr(c1, c2, *left);
            if let (Ok(d1), Ok(d2)) = (walk_set_expr(c1, *left), walk_set_expr(c2, *left)) {
                lemma_outcome_set_expr(d1, d2, *right);
            }
        },
        SetExprAst::Values => {},
        SetExprAst::Insert(st) => lemma_outcome_statement(c1, c2, *st),
    }
}

proof fn lemma_outcome_select(c1: CtxView, c2: CtxView, sel: SelectAst)
    ensures
        same_outcome(walk_select(c1, sel), walk_select(c2, sel)),
    decreases sel, 1int,
{
    let a1 = select_scoped(c1, sel);
    let a2 = select_scoped(c2, sel);
    lemma_outcome_projections_from(a1, a2, sel.projection@, 0);
    if let (Ok(p1), Ok(p2)) = (
        walk_projections_from(a1, sel.projection@, 0),
        walk_projections_from(a2, sel.projection@, 0),
    ) {
        let b1 = match sel.into {
            Some(n) => p1.with_output(p1.table_of(n@)),
            None => p1,
        };
        let b2 = match sel.into {
            Some(n) => p2.with_output(p2.table_of(n@)),
            None => p2,
        };
        lemma_outcome_from_tables_from(b1, b2, sel.from@, 0);
    }
}

proof fn lemma_outcome_projections_from(c1: CtxView, c2: CtxView, items: Seq<SelectItemAst>, i: int)
    ensures
        same_outcome(walk_projections_from(c1, items, i), walk_projections_from(c2, items, i)),
    decreases items, items.len() - i, 1int,
{
    if 0 <= i < items.len() {
        lemma_outcome_projection(c1, c2, items[i]);
        if let (Ok(d1), Ok(d2)) = (walk_projection(c1, items[i]), walk_projection(c2, items[i])) {
            lemma_outcome_projections_from(d1, d2, items, i + 1);
        }
    }
}

proof fn lemma_outcome_projection(c1: CtxView, c2: CtxView, item: SelectItemAst)
    ensures
        same_outcome(walk_projection(c1, item), walk_projection(c2, item)),
    decreases item, 1int,
{
    match item {
        SelectItemAst::UnnamedExpr(e) => {
            lemma_outcome_expr(
                c1.with_column_scope(Some(crate::walk::projection_descendant(e))),
                c2.with_column_scope(Some(crate::walk::projection_descendant(e))),
                e,
            );
        },
        SelectItemAst::ExprWithAlias { expr, alias } => {
            lemma_outcome_expr(
                c1.with_column_scope(Some(crate::meta::DescendantView::Named(alias@))),
                c2.with_column_scope(Some(crate::meta::DescendantView::Named(alias@))),
                expr,
            );
        },
        SelectItemAst::Opaque => {},
    }
}

proof fn lemma_outcome_expr(c1: CtxView, c2: CtxView, e: ExprAst)
    ensures
        same_outcome(walk_expr(c1, e), walk_expr(c2, e)),
    decreases e, 1int,
{
    match e {
        ExprAst::Identifier(_) => {},
        ExprAst::CompoundIdentifier(_) => {},
        ExprAst::Subquery(q) => lemma_outcome_query(c1, c2, *q),
        ExprAst::InSubquery { expr: _, subquery, negated: _ } => lemma_outcome_query(c1, c2, *subquery),
        ExprAst::BinaryOp { left, right } => {
            lemma_outcome_expr(c1, c2, *left);
            if let (Ok(d1), Ok(d2)) = (walk_expr(c1, *left), walk_expr(c2, *left)) {
                lemma_outcome_expr(d1, d2, *right);
            }
        },
        ExprAst::UnaryOp { expr } => lemma_outcome_expr(c1, c2, *expr),
        ExprAst::Case { operand: _, conditions, results: _, else_result: _ } => {
            lemma_outcome_exprs_from(c1, c2, conditions@, 0);
        },
        ExprAst::Function(f) => lemma_outcome_function(c1, c2, f),
        ExprAst::Opaque => {},
    }
}

proof fn lemma_outcome_exprs_from(c1: CtxView, c2: CtxView, es: Seq<ExprAst>, i: int)
    ensures
        same_outcome(walk_exprs_from(c1, es, i), walk_exprs_from(c2, es, i)),
    decreases es, es.len() - i, 1int,
{
    if 0 <= i < es.len() {
        lemma_outcome_expr(c1, c2, es[i]);
        if let (Ok(d1), Ok(d2)) = (walk_expr(c1, es[i]), walk_expr(c2, es[i])) {
            lemma_outcome_exprs_from(d1, d2, es, i + 1);
        }
    }
}

proof fn lemma_outcome_function(c1: CtxView, c2: CtxView, f: FunctionAst)
    ensures
        same_outcome(walk_function(c1, f), walk_function(c2, f)),
    decreases f, 1int,
{
    lemma_outcome_fn_args_from(c1, c2, f.args@, 0);
    if let (Ok(d1), Ok(d2)) = (walk_fn_args_from(c1, f.args@, 0), walk_fn_args_from(c2, f.args@, 0)) {
        match f.over {
            Some(w) => lemma_outcome_window(d1, d2, w),
            None => {},
        }
    }
}

proof fn lemma_outcome_fn_args_from(c1: CtxView, c2: CtxView, args: Seq<FunctionArgAst>, i: int)
    ensures
        same_outcome(walk_fn_args_from(c1, args, i), walk_fn_args_from(c2, args, i)),
    decreases args, args.len() - i, 1int,
{
    if 0 <= i < args.len() {
        lemma_outcome_fn_arg(c1, c2, args[i]);
        if let (Ok(d1), Ok(d2)) = (walk_fn_arg(c1, args[i]), walk_fn_arg(c2, args[i])) {
            lemma_outcome_fn_args_from(d1, d2, args, i + 1);
        }
    }
}

proof fn lemma_outcome_fn_arg(c1: CtxView, c2: CtxView, a: FunctionArgAst)
    ensures
        same_outcome(walk_fn_arg(c1, a), walk_fn_arg(c2, a)),
    decreases a, 1int,
{
    match a {
        FunctionArgAst::Named { name: _, arg } => lemma_outcome_fn_arg_expr(c1, c2, arg),
        FunctionArgAst::Unnamed(arg) => lemma_outcome_fn_arg_expr(c1, c2, arg),
    }
}

proof fn lemma_outcome_fn_arg_expr(c1: CtxView, c2: CtxView, a: FunctionArgExprAst)
    ensures
        same_outcome(walk_fn_arg_expr(c1, a), walk_fn_arg_expr(c2, a)),
    decreases a, 1int,
{
    match a {
        FunctionArgExprAst::Expr(e) => lemma_outcome_expr(c1, c2, e),
        FunctionArgExprAst::Opaque => {},
    }
}

proof fn lemma_outcome_window(c1: CtxView, c2: CtxView, w: WindowSpecAst)
    ensures
        same_outcome(walk_window(c1, w), walk_window(c2, w)),
    decreases w, 1int,
{
    lemma_outcome_exprs_from(c1, c2, w.partition_by@, 0);
    if let (Ok(d1), Ok(d2)) = (walk_exprs_from(c1, w.partition_by@, 0), walk_exprs_from(c2, w.partition_by@, 0)) {
        lemma_outcome_exprs_from(d1, d2, w.order_by@, 0);
    }
}

proof fn lemma_outcome_table_factor(c1: CtxView, c2: CtxView, tf: TableFactorAst)
    ensures
        same_outcome(walk_table_factor(c1, tf), walk_table_factor(c2, tf)),
    decreases tf, 1int,
{
    match tf {
        TableFactorAst::Table { name: _ } => {},
        TableFactorAst::Derived { subquery, alias: _ } => lemma_outcome_query(c1, c2, *subquery),
        TableFactorAst::Unsupported => {},
    }
}

proof fn lemma_outcome_table_with_joins(c1: CtxView, c2: CtxView, t: TableWithJoinsAst)
    ensures
        same_outcome(walk_table_with_joins(c1, t), walk_table_with_joins(c2, t)),
    decreases t, 1int,
{
    lemma_outcome_table_factor(c1, c2, t.relation);
    if let (Ok(d1), Ok(d2)) = (walk_table_factor(c1, t.relation), walk_table_factor(c2, t.relation)) {
        lemma_outcome_joins_from(d1, d2, t.joins@, 0);
    }
}

proof fn lemma_outcome_joins_from(c1: CtxView, c2: CtxView, js: Seq<TableFactorAst>, i: int)
    ensures
        same_outcome(walk_joins_from(c1, js, i), walk_joins_from(c2, js, i)),
    decreases js, js.len() - i, 1int,
{
    if 0 <= i < js.len() {
        lemma_outcome_table_factor(c1, c2, js[i]);
        if let (Ok(d1), Ok(d2)) = (walk_table_factor(c1, js[i]), walk_table_factor(c2, js[i])) {
            lemma_outcome_joins_from(d1, d2, js, i + 1);
        }
    }
}

proof fn lemma_outcome_from_tables_from(c1: CtxView, c2: CtxView, ts: Seq<TableWithJoinsAst>, i: int)
    ensures
        same_outcome(walk_from_tables_from(c1, ts, i), walk_from_tables_from(c2, ts, i)),
    decreases ts, ts.len() - i, 1int,
{
    if 0 <= i < ts.len() {
        lemma_outcome_table_with_joins(c1, c2, ts[i]);
        if let (Ok(d1), Ok(d2)) = (walk_table_with_joins(c1, ts[i]), walk_table_with_joins(c2, ts[i])) {
            lemma_outcome_from_tables_from(d1, d2, ts, i + 1);
        }
    }
}

} // verus!
