//! The walk's frame, proved over every node kind: the configuration is
//! immutable through the whole walk, a successful walk restores the scopes
//! it found, the input/output/alias sets only grow, and recorded ancestors
//! are only ever appended to, never replaced.

use vstd::prelude::*;
use crate::ast::{CteAst, ExprAst, FunctionArgAst, FunctionArgExprAst, FunctionAst, QueryAst, SelectAst, SelectItemAst, SetExprAst, StatementAst, TableFactorAst, TableWithJoinsAst, WindowSpecAst, WithAst};
use crate::context::CtxView;
use crate::meta::{ColumnView, DescendantView};
use crate::walk::{WalkErr, record_ancestor, select_scoped, walk_ctes_from, walk_expr, walk_exprs_from, walk_fn_arg, walk_fn_arg_expr, walk_fn_args_from, walk_from_tables_from, walk_function, walk_joins_from, walk_projection, walk_projections_from, walk_query, walk_select, walk_set_expr, walk_statement, walk_table_factor, walk_table_with_joins, walk_window, walk_with};

verus! {

/// The later context extends the earlier one: same configuration, no
/// discovered fact lost, and the ancestors of every descendant kept as a
/// prefix of what they became.
pub open spec fn accumulates(c: CtxView, o: CtxView) -> bool {
    &&& c.inputs.subset_of(o.inputs)
    &&& c.outputs.subset_of(o.outputs)
    &&& c.aliases.subset_of(o.aliases)
    &&& (forall|d: DescendantView| #[trigger] c.lineage.contains_key(d) ==> o.lineage.contains_key(d)
        && c.lineage[d].is_prefix_of(o.lineage[d]))
    &&& o.dialect == c.dialect
    &&& o.default_schema == c.default_schema
}

/// What every rule guarantees on success: the result extends the starting
/// context and leaves both scopes exactly as it found them.
pub open spec fn frame_ok(c: CtxView, r: Result<CtxView, WalkErr>) -> bool {
    r is Ok ==> {
        &&& accumulates(c, r->Ok_0)
        &&& r->Ok_0.table_scope == c.table_scope
        &&& r->Ok_0.column_scope == c.column_scope
    }
}

proof fn prefix_refl(s: Seq<ColumnView>)
    ensures
        s.is_prefix_of(s),
{
    assert(s =~= s.subrange(0, s.len() as int));
}

proof fn prefix_extend(s: Seq<ColumnView>, t: Seq<ColumnView>)
    ensures
        s.is_prefix_of(s + t),
{
    assert(s =~= (s + t).subrange(0, s.len() as int));
}

proof fn prefix_trans(a: Seq<ColumnView>, b: Seq<ColumnView>, c: Seq<ColumnView>)
    requires
        a.is_prefix_of(b),
        b.is_prefix_of(c),
    ensures
        a.is_prefix_of(c),
{
    assert(a =~= c.subrange(0, a.len() as int));
}

proof fn acc_refl(c: CtxView, o: CtxView)
    requires
        o.inputs == c.inputs,
        o.outputs == c.outputs,
        o.aliases == c.aliases,
        o.lineage == c.lineage,
        o.dialect == c.dialect,
        o.default_schema == c.default_schema,
    ensures
        accumulates(c, o),
{
    assert forall|d: DescendantView| #[trigger] c.lineage.contains_key(d) implies o.lineage.contains_key(d)
        && c.lineage[d].is_prefix_of(o.lineage[d]) by {
        prefix_refl(c.lineage[d]);
    }
}

proof fn acc_trans(a: CtxView, b: CtxView, c: CtxView)
    requires
        accumulates(a, b),
        accumulates(b, c),
    ensures
        accumulates(a, c),
{
    assert forall|d: DescendantView| #[trigger] a.lineage.contains_key(d) implies c.lineage.contains_key(d)
        && a.lineage[d].is_prefix_of(c.lineage[d]) by {
        assert(b.lineage.contains_key(d));
        prefix_trans(a.lineage[d], b.lineage[d], c.lineage[d]);
    }
}

proof fn acc_with_input(c: CtxView, t: crate::meta::TableView)
    ensures
        accumulates(c, c.with_input(t)),
{
    assert forall|d: DescendantView| #[trigger] c.lineage.contains_key(d) implies c.with_input(t).lineage.contains_key(d)
        && c.lineage[d].is_prefix_of(c.with_input(t).lineage[d]) by {
        prefix_refl(c.lineage[d]);
    }
}

proof fn acc_with_output(c: CtxView, t: crate::meta::TableView)
    ensures
        accumulates(c, c.with_output(t)),
{
    assert forall|d: DescendantView| #[trigger] c.lineage.contains_key(d) implies c.with_output(t).lineage.contains_key(d)
        && c.lineage[d].is_prefix_of(c.with_output(t).lineage[d]) by {
        prefix_refl(c.lineage[d]);
    }
}

proof fn acc_with_alias(c: CtxView, a: Seq<char>)
    ensures
        accumulates(c, c.with_alias(a)),
{
    assert forall|d: DescendantView| #[trigger] c.lineage.contains_key(d) implies c.with_alias(a).lineage.contains_key(d)
        && c.lineage[d].is_prefix_of(c.with_alias(a).lineage[d]) by {
        prefix_refl(c.lineage[d]);
    }
}

proof fn acc_with_ancestors(c: CtxView, key: DescendantView, anc: Seq<ColumnView>)
    ensures
        accumulates(c, c.with_ancestors(key, anc)),
{
    let o = c.with_ancestors(key, anc);
    assert forall|d: DescendantView| #[trigger] c.lineage.contains_key(d) implies o.lineage.contains_key(d)
        && c.lineage[d].is_prefix_of(o.lineage[d]) by {
        if d == key {
            prefix_extend(c.lineage[d], anc);
        } else {
            prefix_refl(c.lineage[d]);
        }
    }
}

proof fn acc_record(c: CtxView, name: Seq<char>)
    ensures
        accumulates(c, record_ancestor(c, name)),
        record_ancestor(c, name).table_scope == c.table_scope,
        record_ancestor(c, name).column_scope == c.column_scope,
{
    match c.column_scope {
        Some(d) => {
            acc_with_ancestors(c, d, seq![ColumnView { name: name, table: c.table_scope }]);
        },
        None => {
            acc_refl(c, c);
        },
    }
}

/// The frame of the whole statement walk: on success the configuration and
/// both scope registers come back exactly as supplied, and everything
/// already accumulated survives, ancestors as a prefix.
pub proof fn lemma_frame_statement(c: CtxView, s: StatementAst)
    ensures
        frame_ok(c, walk_statement(c, s)),
    decreases s, 1int,
{
    match s {
        StatementAst::Query(q) => lemma_frame_query(c, *q),
        StatementAst::Insert { table_name, source } => {
            lemma_frame_query(c, *source);
            if let Ok(c1) = walk_query(c, *source) {
                acc_with_output(c1, c1.table_of(table_name@));
                acc_trans(c, c1, c1.with_output(c1.table_of(table_name@)));
            }
        },
        StatementAst::Merge { table, source } => {
            if let TableFactorAst::Table { name } = table {
                let c1 = c.with_output(c.table_of(name@));
                acc_with_output(c, c.table_of(name@));
                lemma_frame_table_factor(c1, source);
                if let Ok(c2) = walk_table_factor(c1, source) {
                    acc_trans(c, c1, c2);
                }
            }
        },
        StatementAst::CreateTable { name, query, like, clone_source } => {
            let r1 = match query {
                Some(q) => walk_query(c, *q),
                None => Ok(c),
            };
            match query {
                Some(q) => lemma_frame_query(c, *q),
                None => acc_refl(c, c),
            }
            if let Ok(c1) = r1 {
                let c2 = match like {
                    Some(l) => c1.with_input(c1.table_of(l@)),
                    None => c1,
                };
                match like {
                    Some(l) => acc_with_input(c1, c1.table_of(l@)),
                    None => acc_refl(c1, c1),
                }
                let c3 = match clone_source {
                    Some(cl) => c2.with_input(c2.table_of(cl@)),
                    None => c2,
                };
                match clone_source {
                    Some(cl) => acc_with_input(c2, c2.table_of(cl@)),
                    None => acc_refl(c2, c2),
                }
                acc_with_output(c3, c3.table_of(name@));
                acc_trans(c, c1, c2);
                acc_trans(c, c2, c3);
                acc_trans(c, c3, c3.with_output(c3.table_of(name@)));
            }
        },
        StatementAst::Update { table, from, selection } => {
            if let TableFactorAst::Table { name } = table.relation {
                let c1 = c.with_output(c.table_of(name@));
                acc_with_output(c, c.table_of(name@));
                let r2 = match from {
                    Some(t) => walk_table_with_joins(c1, t),
                    None => Ok(c1),
                };
                match from {
                    Some(t) => lemma_frame_table_with_joins(c1, t),
                    None => acc_refl(c1, c1),
                }
                if let Ok(c2) = r2 {
                    acc_trans(c, c1, c2);
                    match selection {
                        Some(e) => {
                            lemma_frame_expr(c2, e);
                            if let Ok(c3) = walk_expr(c2, e) {
                                acc_trans(c, c2, c3);
                            }
                        },
                        None => {},
                    }
                }
            }
        },
        StatementAst::Delete { table, using, selection } => {
            if let TableFactorAst::Table { name } = table {
                let c1 = c.with_output(c.table_of(name@));
                acc_with_output(c, c.table_of(name@));
                let r2 = match using {
                    Some(u) => walk_table_factor(c1, u),
                    None => Ok(c1),
                };
                match using {
                    Some(u) => lemma_frame_table_factor(c1, u),
                    None => acc_refl(c1, c1),
                }
                if let Ok(c2) = r2 {
                    acc_trans(c, c1, c2);
                    match selection {
                        Some(e) => {
                            lemma_frame_expr(c2, e);
                            if let Ok(c3) = walk_expr(c2, e) {
                                acc_trans(c, c2, c3);
                            }
                        },
                        None => {},
                    }
                }
            }
        },
        StatementAst::Other => {
            acc_refl(c, c);
        },
    }
}

proof fn lemma_frame_query(c: CtxView, q: QueryAst)
    ensures
        frame_ok(c, walk_query(c, q)),
    decreases q, 1int,
{
    let r1 = match q.with {
        Some(w) => walk_with(c, w),
        None => Ok(c),
    };
    match q.with {
        Some(w) => lemma_frame_with(c, w),
        None => acc_refl(c, c),
    }
    if let Ok(c1) = r1 {
        lemma_frame_set_expr(c1, q.body);
        if let Ok(c2) = walk_set_expr(c1, q.body) {
            acc_trans(c, c1, c2);
        }
    }
}

proof fn lemma_frame_with(c: CtxView, w: WithAst)
    ensures
        frame_ok(c, walk_with(c, w)),
    decreases w, 1int,
{
    lemma_frame_ctes_from(c, w.cte_tables@, 0);
}

proof fn lemma_frame_ctes_from(c: CtxView, ctes: Seq<CteAst>, i: int)
    ensures
        frame_ok(c, walk_ctes_from(c, ctes, i)),
    decreases ctes, ctes.len() - i, 1int,
{
    if 0 <= i < ctes.len() {
        let ca = c.with_alias(ctes[i].alias@);
        acc_with_alias(c, ctes[i].alias@);
        lemma_frame_query(ca, ctes[i].query);
        if let Ok(c1) = walk_query(ca, ctes[i].query) {
            acc_trans(c, ca, c1);
            lemma_frame_ctes_from(c1, ctes, i + 1);
            if let Ok(c2) = walk_ctes_from(c1, ctes, i + 1) {
                acc_trans(c, c1, c2);
            }
        }
    } else {
        acc_refl(c, c);
    }
}

proof fn lemma_frame_set_expr(c: CtxView, e: SetExprAst)
    ensures
        frame_ok(c, walk_set_expr(c, e)),
    decreases e, 1int,
{
    match e {
        SetExprAst::Select(sel) => lemma_frame_select(c, *sel),
        SetExprAst::Query(q) => lemma_frame_query(c, *q),
        SetExprAst::SetOperation { left, right } => {
            lemma_frame_set_expr(c, *left);
            if let Ok(c1) = walk_set_expr(c, *left) {
                lemma_frame_set_expr(c1, *right);
                if let Ok(c2) = walk_set_expr(c1, *right) {
                    acc_trans(c, c1, c2);
                }
            }
        },
        SetExprAst::Values => acc_refl(c, c),
        SetExprAst::Insert(st) => lemma_frame_statement(c, *st),
    }
}

proof fn lemma_frame_select(c: CtxView, sel: SelectAst)
    ensures
        frame_ok(c, walk_select(c, sel)),
    decreases sel, 1int,
{
    let c0 = select_scoped(c, sel);
    acc_refl(c, c0);
    lemma_frame_projections_from(c0, sel.projection@, 0);
    if let Ok(c1) = walk_projections_from(c0, sel.projection@, 0) {
        acc_trans(c, c0, c1);
        let c2 = match sel.into {
            Some(n) => c1.with_output(c1.table_of(n@)),
            None => c1,
        };
        match sel.into {
            Some(n) => acc_with_output(c1, c1.table_of(n@)),
            None => acc_refl(c1, c1),
        }
        acc_trans(c, c1, c2);
        lemma_frame_from_tables_from(c2, sel.from@, 0);
        if let Ok(c3) = walk_from_tables_from(c2, sel.from@, 0) {
            acc_trans(c, c2, c3);
            acc_refl(c3, c3.with_table_scope(c.table_scope));
            acc_trans(c, c3, c3.with_table_scope(c.table_scope));
        }
    }
}

proof fn lemma_frame_projections_from(c: CtxView, items: Seq<SelectItemAst>, i: int)
    ensures
        frame_ok(c, walk_projections_from(c, items, i)),
    decreases items, items.len() - i, 1int,
{
    if 0 <= i < items.len() {
        lemma_frame_projection(c, items[i]);
        if let Ok(c1) = walk_projection(c, items[i]) {
            lemma_frame_projections_from(c1, items, i + 1);
            if let Ok(c2) = walk_projections_from(c1, items, i + 1) {
                acc_trans(c, c1, c2);
            }
        }
    } else {
        acc_refl(c, c);
    }
}

proof fn lemma_frame_projection(c: CtxView, item: SelectItemAst)
    ensures
        frame_ok(c, walk_projection(c, item)),
    decreases item, 1int,
{
    match item {
        SelectItemAst::UnnamedExpr(e) => {
            let ca = c.with_column_scope(Some(crate::walk::projection_descendant(e)));
            acc_refl(c, ca);
            lemma_frame_expr(ca, e);
            if let Ok(c1) = walk_expr(ca, e) {
                acc_trans(c, ca, c1);
                acc_refl(c1, c1.with_column_scope(c.column_scope));
                acc_trans(c, c1, c1.with_column_scope(c.column_scope));
            }
        },
        SelectItemAst::ExprWithAlias { expr, alias } => {
            let ca = c.with_column_scope(Some(DescendantView::Named(alias@)));
            acc_refl(c, ca);
            lemma_frame_expr(ca, expr);
            if let Ok(c1) = walk_expr(ca, expr) {
                acc_trans(c, ca, c1);
                acc_with_alias(c1, alias@);
                acc_trans(c, c1, c1.with_alias(alias@));
                let o = c1.with_alias(alias@).with_column_scope(c.column_scope);
                acc_refl(c1.with_alias(alias@), o);
                acc_trans(c, c1.with_alias(alias@), o);
            }
        },
        SelectItemAst::Opaque => acc_refl(c, c),
    }
}

proof fn lemma_frame_expr(c: CtxView, e: ExprAst)
    ensures
        frame_ok(c, walk_expr(c, e)),
    decreases e, 1int,
{
    match e {
        ExprAst::Identifier(id) => acc_record(c, id@),
        ExprAst::CompoundIdentifier(ids) => {
            if ids@.len() > 0 {
                acc_record(c, ids@.last()@);
            } else {
                acc_refl(c, c);
            }
        },
        ExprAst::Subquery(q) => lemma_frame_query(c, *q),
        ExprAst::InSubquery { expr: _, subquery, negated: _ } => lemma_frame_query(c, *subquery),
        ExprAst::BinaryOp { left, right } => {
            lemma_frame_expr(c, *left);
            if let Ok(c1) = walk_expr(c, *left) {
                lemma_frame_expr(c1, *right);
                if let Ok(c2) = walk_expr(c1, *right) {
                    acc_trans(c, c1, c2);
                }
            }
        },
        ExprAst::UnaryOp { expr } => lemma_frame_expr(c, *expr),
        ExprAst::Case { operand: _, conditions, results: _, else_result: _ } => {
            lemma_frame_exprs_from(c, conditions@, 0);
        },
        ExprAst::Function(f) => lemma_frame_function(c, f),
        ExprAst::Opaque => acc_refl(c, c),
    }
}

proof fn lemma_frame_exprs_from(c: CtxView, es: Seq<ExprAst>, i: int)
    ensures
        frame_ok(c, walk_exprs_from(c, es, i)),
    decreases es, es.len() - i, 1int,
{
    if 0 <= i < es.len() {
        lemma_frame_expr(c, es[i]);
        if let Ok(c1) = walk_expr(c, es[i]) {
            lemma_frame_exprs_from(c1, es, i + 1);
            if let Ok(c2) = walk_exprs_from(c1, es, i + 1) {
                acc_trans(c, c1, c2);
            }
        }
    } else {
        acc_refl(c, c);
    }
}

proof fn lemma_frame_function(c: CtxView, f: FunctionAst)
    ensures
        frame_ok(c, walk_function(c, f)),
    decreases f, 1int,
{
    lemma_frame_fn_args_from(c, f.args@, 0);
    if let Ok(c1) = walk_fn_args_from(c, f.args@, 0) {
        match f.over {
            Some(w) => {
                lemma_frame_window(c1, w);
                if let Ok(c2) = walk_window(c1, w) {
                    acc_trans(c, c1, c2);
                }
            },
            None => {},
        }
    }
}

proof fn lemma_frame_fn_args_from(c: CtxView, args: Seq<FunctionArgAst>, i: int)
    ensures
        frame_ok(c, walk_fn_args_from(c, args, i)),
    decreases args, args.len() - i, 1int,
{
    if 0 <= i < args.len() {
        lemma_frame_fn_arg(c, args[i]);
        if let Ok(c1) = walk_fn_arg(c, args[i]) {
            lemma_frame_fn_args_from(c1, args, i + 1);
            if let Ok(c2) = walk_fn_args_from(c1, args, i + 1) {
                acc_trans(c, c1, c2);
            }
        }
    } else {
        acc_refl(c, c);
    }
}

proof fn lemma_frame_fn_arg(c: CtxView, a: FunctionArgAst)
    ensures
        frame_ok(c, walk_fn_arg(c, a)),
    decreases a, 1int,
{
    match a {
        FunctionArgAst::Named { name: _, arg } => lemma_frame_fn_arg_expr(c, arg),
        FunctionArgAst::Unnamed(arg) => lemma_frame_fn_arg_expr(c, arg),
    }
}

proof fn lemma_frame_fn_arg_expr(c: CtxView, a: FunctionArgExprAst)
    ensures
        frame_ok(c, walk_fn_arg_expr(c, a)),
    decreases a, 1int,
{
    match a {
        FunctionArgExprAst::Expr(e) => lemma_frame_expr(c, e),
        FunctionArgExprAst::Opaque => acc_refl(c, c),
    }
}

proof fn lemma_frame_window(c: CtxView, w: WindowSpecAst)
    ensures
        frame_ok(c, walk_window(c, w)),
    decreases w, 1int,
{
    lemma_frame_exprs_from(c, w.partition_by@, 0);
    if let Ok(c1) = walk_exprs_from(c, w.partition_by@, 0) {
        lemma_frame_exprs_from(c1, w.order_by@, 0);
        if let Ok(c2) = walk_exprs_from(c1, w.order_by@, 0) {
            acc_trans(c, c1, c2);
        }
    }
}

proof fn lemma_frame_table_factor(c: CtxView, tf: TableFactorAst)
    ensures
        frame_ok(c, walk_table_factor(c, tf)),
    decreases tf, 1int,
{
    match tf {
        TableFactorAst::Table { name } => acc_with_input(c, c.table_of(name@)),
        TableFactorAst::Derived { subquery, alias } => {
            lemma_frame_query(c, *subquery);
            if let Ok(c1) = walk_query(c, *subquery) {
                match alias {
                    Some(a) => {
                        acc_with_alias(c1, a@);
                        acc_trans(c, c1, c1.with_alias(a@));
                    },
                    None => {},
                }
            }
        },
        TableFactorAst::Unsupported => {},
    }
}

proof fn lemma_frame_table_with_joins(c: CtxView, t: TableWithJoinsAst)
    ensures
        frame_ok(c, walk_table_with_joins(c, t)),
    decreases t, 1int,
{
    lemma_frame_table_factor(c, t.relation);
    if let Ok(c1) = walk_table_factor(c, t.relation) {
        lemma_frame_joins_from(c1, t.joins@, 0);
        if let Ok(c2) = walk_joins_from(c1, t.joins@, 0) {
            acc_trans(c, c1, c2);
        }
    }
}

proof fn lemma_frame_joins_from(c: CtxView, js: Seq<TableFactorAst>, i: int)
    ensures
        frame_ok(c, walk_joins_from(c, js, i)),
    decreases js, js.len() - i, 1int,
{
    if 0 <= i < js.len() {
        lemma_frame_table_factor(c, js[i]);
        if let Ok(c1) = walk_table_factor(c, js[i]) {
            lemma_frame_joins_from(c1, js, i + 1);
            if let Ok(c2) = walk_joins_from(c1, js, i + 1) {
                acc_trans(c, c1, c2);
            }
        }
    } else {
        acc_refl(c, c);
    }
}

proof fn lemma_frame_from_tables_from(c: CtxView, ts: Seq<TableWithJoinsAst>, i: int)
    ensures
        frame_ok(c, walk_from_tables_from(c, ts, i)),
    decreases ts, ts.len() - i, 1int,
{
    if 0 <= i < ts.len() {
        lemma_frame_table_with_joins(c, ts[i]);
        if let Ok(c1) = walk_table_with_joins(c, ts[i]) {
            lemma_frame_from_tables_from(c1, ts, i + 1);
            if let Ok(c2) = walk_from_tables_from(c1, ts, i + 1) {
                acc_trans(c, c1, c2);
            }
        }
    } else {
        acc_refl(c, c);
    }
}

} // verus!
