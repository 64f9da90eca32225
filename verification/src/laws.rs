//! Statement-shape laws: what the walk guarantees for the characteristic
//! DML/DDL shapes, proved once and for all names and configurations.

use vstd::prelude::*;
use crate::ast::{ExprAst, SelectAst, SelectItemAst, SetExprAst, StatementAst, TableFactorAst};
use crate::context::CtxView;
use crate::meta::{ColumnView, DescendantView, Dialect, normalize};
use crate::walk::{WalkErr, record_ancestor, select_scoped, walk_ctes_from, walk_expr, walk_from_tables_from, walk_joins_from, walk_projection, walk_projections_from, walk_query, walk_select, walk_set_expr, walk_statement, walk_table_with_joins};

verus! {

/// `INSERT INTO target SELECT * FROM src`.
pub open spec fn insert_select_star_shape(stmt: StatementAst, target: Seq<Seq<char>>, src: Seq<Seq<char>>) -> bool {
    stmt matches StatementAst::Insert { table_name, source } && {
        &&& table_name@ == target
        &&& (*source).with is None
        &&& (*source).body matches SetExprAst::Select(sel) && {
            &&& (*sel).projection@.len() == 1
            &&& (*sel).projection@[0] is Opaque
            &&& (*sel).into is None
            &&& (*sel).from@.len() == 1
            &&& (*sel).from@[0].joins@.len() == 0
            &&& (*sel).from@[0].relation matches TableFactorAst::Table { name } && name@ == src
        }
    }
}

/// An `INSERT ... SELECT * FROM src` walk always succeeds; it adds exactly
/// the insert target to the outputs and exactly the selected table to the
/// inputs, touches no column lineage, no aliases, and no scopes.
pub proof fn lemma_insert_select_star(c: CtxView, stmt: StatementAst, target: Seq<Seq<char>>, src: Seq<Seq<char>>)
    requires
        insert_select_star_shape(stmt, target, src),
    ensures
        walk_statement(c, stmt) is Ok,
        walk_statement(c, stmt)->Ok_0.outputs =~= c.outputs.insert(c.table_of(target)),
        walk_statement(c, stmt)->Ok_0.inputs =~= c.inputs.insert(c.table_of(src)),
        walk_statement(c, stmt)->Ok_0.aliases == c.aliases,
        walk_statement(c, stmt)->Ok_0.lineage == c.lineage,
        walk_statement(c, stmt)->Ok_0.table_scope == c.table_scope,
        walk_statement(c, stmt)->Ok_0.column_scope == c.column_scope,
    {
        reveal_with_fuel(walk_projections_from, 3);
        reveal_with_fuel(walk_from_tables_from, 3);
        reveal_with_fuel(walk_joins_from, 2);
        if let StatementAst::Insert { table_name, source } = stmt {
            let q = *source;
            assert(walk_query(c, q) == walk_set_expr(c, q.body));
            if let SetExprAst::Select(selb) = q.body {
                let sel = *selb;
                assert(walk_set_expr(c, q.body) == walk_select(c, sel));
                let c0 = select_scoped(c, sel);
                assert(c0 == c.with_table_scope(Some(c.table_of(src))));
                assert(walk_projection(c0, sel.projection@[0]) == Ok::<CtxView, WalkErr>(c0));
                assert(walk_projections_from(c0, sel.projection@, 0) == Ok::<CtxView, WalkErr>(c0));
                let c2 = c0;
                let c3 = c2.with_input(c2.table_of(src));
                assert(walk_table_with_joins(c2, sel.from@[0]) == Ok::<CtxView, WalkErr>(c3));
                assert(walk_from_tables_from(c2, sel.from@, 0) == Ok::<CtxView, WalkErr>(c3));
                assert(walk_select(c, sel) == Ok::<CtxView, WalkErr>(c3.with_table_scope(c.table_scope)));
            }
        }
    }

/// `CREATE TABLE target LIKE src`, with no defining query and no clone
/// source.
pub open spec fn create_like_shape(stmt: StatementAst, target: Seq<Seq<char>>, src: Seq<Seq<char>>) -> bool {
    stmt matches StatementAst::CreateTable { name, query, like, clone_source } && {
        &&& name@ == target
        &&& query is None
        &&& like matches Some(l) && l@ == src
        &&& clone_source is None
    }
}

/// A `CREATE TABLE ... LIKE` walk always succeeds; it adds the created
/// table to the outputs and the model table to the inputs, and records no
/// column lineage, since there is no defining query.
pub proof fn lemma_create_like(c: CtxView, stmt: StatementAst, target: Seq<Seq<char>>, src: Seq<Seq<char>>)
    requires
        create_like_shape(stmt, target, src),
    ensures
        walk_statement(c, stmt) == Ok::<CtxView, WalkErr>(
            c.with_input(c.table_of(src)).with_output(c.table_of(target)),
        ),
        walk_statement(c, stmt)->Ok_0.lineage == c.lineage,
    {
    }

/// `SELECT a AS x, b FROM src`.
pub open spec fn aliased_pair_select_shape(
    stmt: StatementAst,
    a: Seq<char>,
    x: Seq<char>,
    b: Seq<char>,
    src: Seq<Seq<char>>,
) -> bool {
    stmt matches StatementAst::Query(q) && {
        &&& (*q).with is None
        &&& (*q).body matches SetExprAst::Select(sel) && {
            &&& (*sel).projection@.len() == 2
            &&& (*sel).projection@[0] matches SelectItemAst::ExprWithAlias { expr, alias } && {
                &&& alias@ == x
                &&& expr matches ExprAst::Identifier(id) && id@ == a
            }
            &&& (*sel).projection@[1] matches SelectItemAst::UnnamedExpr(e2) && {
                &&& e2 matches ExprAst::Identifier(id2) && id2@ == b
            }
            &&& (*sel).into is None
            &&& (*sel).from@.len() == 1
            &&& (*sel).from@[0].joins@.len() == 0
            &&& (*sel).from@[0].relation matches TableFactorAst::Table { name } && name@ == src
        }
    }
}

/// On a fresh context, `SELECT a AS x, b FROM src` succeeds; the alias `x`
/// descends from `src.a` alone, the bare column `b` descends from `src.b`
/// alone, the only input is `src`, and `x` is registered as an alias.
pub proof fn lemma_aliased_pair_select(
    d: Dialect,
    ds: Option<Seq<char>>,
    stmt: StatementAst,
    a: Seq<char>,
    x: Seq<char>,
    b: Seq<char>,
    src: Seq<Seq<char>>,
)
    requires
        aliased_pair_select_shape(stmt, a, x, b, src),
        x != b,
    ensures
        walk_statement(CtxView::init(d, ds), stmt) is Ok,
        ({
            let t = normalize(src, d, ds);
            let out = walk_statement(CtxView::init(d, ds), stmt)->Ok_0;
            &&& out.lineage[DescendantView::Named(x)] == seq![ColumnView { name: a, table: Some(t) }]
            &&& out.lineage[DescendantView::Named(b)] == seq![ColumnView { name: b, table: Some(t) }]
            &&& out.inputs =~= Set::<crate::meta::TableView>::empty().insert(t)
            &&& out.aliases.contains(x)
        }),
    {
        reveal_with_fuel(walk_projections_from, 4);
        reveal_with_fuel(walk_from_tables_from, 3);
        reveal_with_fuel(walk_joins_from, 2);
        let c = CtxView::init(d, ds);
        let t = normalize(src, d, ds);
        if let StatementAst::Query(qb) = stmt {
            let q = *qb;
            if let SetExprAst::Select(selb) = q.body {
                let sel = *selb;
                let c0 = select_scoped(c, sel);
                assert(c0 == c.with_table_scope(Some(t)));
                let col_a = ColumnView { name: a, table: Some(t) };
                let col_b = ColumnView { name: b, table: Some(t) };
                let ca = c0.with_column_scope(Some(DescendantView::Named(x)));
                let ca1 = record_ancestor(ca, a);
                assert(Seq::<ColumnView>::empty() + seq![col_a] =~= seq![col_a]);
                assert(ca1 == ca.with_ancestors(DescendantView::Named(x), seq![col_a]));
                let ca2 = ca1.with_alias(x).with_column_scope(c0.column_scope);
                assert(walk_projection(c0, sel.projection@[0]) == Ok::<CtxView, WalkErr>(ca2));
                let cb = ca2.with_column_scope(Some(DescendantView::Named(b)));
                let cb1 = record_ancestor(cb, b);
                assert(Seq::<ColumnView>::empty() + seq![col_b] =~= seq![col_b]);
                let cb2 = cb1.with_column_scope(ca2.column_scope);
                assert(walk_projection(ca2, sel.projection@[1]) == Ok::<CtxView, WalkErr>(cb2));
                assert(walk_projections_from(c0, sel.projection@, 0) == Ok::<CtxView, WalkErr>(cb2));
                let c3 = cb2.with_input(cb2.table_of(src));
                assert(walk_table_with_joins(cb2, sel.from@[0]) == Ok::<CtxView, WalkErr>(c3));
                assert(walk_from_tables_from(cb2, sel.from@, 0) == Ok::<CtxView, WalkErr>(c3));
                let out = c3.with_table_scope(c.table_scope);
                assert(walk_select(c, sel) == Ok::<CtxView, WalkErr>(out));
                assert(out.lineage[DescendantView::Named(x)] == seq![col_a]);
                assert(out.lineage[DescendantView::Named(b)] == seq![col_b]);
                assert(out.inputs =~= Set::<crate::meta::TableView>::empty().insert(t));
                assert(out.aliases.contains(x));
            }
        }
    }

/// `SELECT a + b AS total FROM src`.
pub open spec fn sum_alias_select_shape(
    stmt: StatementAst,
    a: Seq<char>,
    b: Seq<char>,
    total: Seq<char>,
    src: Seq<Seq<char>>,
) -> bool {
    stmt matches StatementAst::Query(q) && {
        &&& (*q).with is None
        &&& (*q).body matches SetExprAst::Select(sel) && {
            &&& (*sel).projection@.len() == 1
            &&& (*sel).projection@[0] matches SelectItemAst::ExprWithAlias { expr, alias } && {
                &&& alias@ == total
                &&& expr matches ExprAst::BinaryOp { left, right } && {
                    &&& (*left) matches ExprAst::Identifier(la) && la@ == a
                    &&& (*right) matches ExprAst::Identifier(rb) && rb@ == b
                }
            }
            &&& (*sel).into is None
            &&& (*sel).from@.len() == 1
            &&& (*sel).from@[0].joins@.len() == 0
            &&& (*sel).from@[0].relation matches TableFactorAst::Table { name } && name@ == src
        }
    }
}

/// On a fresh context, `SELECT a + b AS total FROM src` succeeds and the
/// descendant `total` has exactly the ancestors `src.a` and `src.b`, in
/// left-to-right syntactic order.
pub proof fn lemma_sum_alias_select(
    d: Dialect,
    ds: Option<Seq<char>>,
    stmt: StatementAst,
    a: Seq<char>,
    b: Seq<char>,
    total: Seq<char>,
    src: Seq<Seq<char>>,
)
    requires
        sum_alias_select_shape(stmt, a, b, total, src),
    ensures
        walk_statement(CtxView::init(d, ds), stmt) is Ok,
        ({
            let t = normalize(src, d, ds);
            let out = walk_statement(CtxView::init(d, ds), stmt)->Ok_0;
            &&& out.lineage[DescendantView::Named(total)] == seq![
                ColumnView { name: a, table: Some(t) },
                ColumnView { name: b, table: Some(t) },
            ]
            &&& out.inputs =~= Set::<crate::meta::TableView>::empty().insert(t)
        }),
    {
        reveal_with_fuel(walk_projections_from, 3);
        reveal_with_fuel(walk_from_tables_from, 3);
        reveal_with_fuel(walk_joins_from, 2);
        let c = CtxView::init(d, ds);
        let t = normalize(src, d, ds);
        if let StatementAst::Query(qb) = stmt {
            let q = *qb;
            if let SetExprAst::Select(selb) = q.body {
                let sel = *selb;
                let c0 = select_scoped(c, sel);
                assert(c0 == c.with_table_scope(Some(t)));
                let col_a = ColumnView { name: a, table: Some(t) };
                let col_b = ColumnView { name: b, table: Some(t) };
                let dsc = DescendantView::Named(total);
                let ca = c0.with_column_scope(Some(dsc));
                let ca1 = record_ancestor(ca, a);
                assert(Seq::<ColumnView>::empty() + seq![col_a] =~= seq![col_a]);
                assert(ca1 == ca.with_ancestors(dsc, seq![col_a]));
                let ca2 = record_ancestor(ca1, b);
                assert(ca1.lineage[dsc] + seq![col_b] =~= seq![col_a, col_b]);
                assert(ca2.lineage[dsc] == seq![col_a, col_b]);
                if let SelectItemAst::ExprWithAlias { expr, alias } = sel.projection@[0] {
                    assert(walk_expr(ca, expr) == Ok::<CtxView, WalkErr>(ca2));
                }
                let ca3 = ca2.with_alias(total).with_column_scope(c0.column_scope);
                assert(walk_projection(c0, sel.projection@[0]) == Ok::<CtxView, WalkErr>(ca3));
                assert(walk_projections_from(c0, sel.projection@, 0) == Ok::<CtxView, WalkErr>(ca3));
                let c3 = ca3.with_input(ca3.table_of(src));
                assert(walk_table_with_joins(ca3, sel.from@[0]) == Ok::<CtxView, WalkErr>(c3));
                assert(walk_from_tables_from(ca3, sel.from@, 0) == Ok::<CtxView, WalkErr>(c3));
                let out = c3.with_table_scope(c.table_scope);
                assert(walk_select(c, sel) == Ok::<CtxView, WalkErr>(out));
                assert(out.lineage[dsc] == seq![col_a, col_b]);
                assert(out.inputs =~= Set::<crate::meta::TableView>::empty().insert(t));
            }
        }
    }

/// Accumulating ancestors for the same descendant twice appends: what was
/// recorded first stays as a prefix, it is never overwritten.
pub proof fn lemma_ancestors_accumulate(c: CtxView, d: DescendantView, first: Seq<ColumnView>, second: Seq<ColumnView>)
    ensures
        c.with_ancestors(d, first).with_ancestors(d, second).lineage[d] == {
            let prior = if c.lineage.contains_key(d) {
                c.lineage[d]
            } else {
                Seq::<ColumnView>::empty()
            };
            prior + first + second
        },
    {
        assert((if c.lineage.contains_key(d) {
            c.lineage[d]
        } else {
            Seq::<ColumnView>::empty()
        }) + first + second =~= ((if c.lineage.contains_key(d) {
            c.lineage[d]
        } else {
            Seq::<ColumnView>::empty()
        }) + first) + second);
    }

/// One CTE defining `SELECT x FROM src`, then `SELECT x FROM cte`.
pub open spec fn single_column_select_shape(sel: SelectAst, x: Seq<char>, from_name: Seq<Seq<char>>) -> bool {
    &&& sel.projection@.len() == 1
    &&& sel.projection@[0] matches SelectItemAst::UnnamedExpr(e) && {
        &&& e matches ExprAst::Identifier(id) && id@ == x
    }
    &&& sel.into is None
    &&& sel.from@.len() == 1
    &&& sel.from@[0].joins@.len() == 0
    &&& sel.from@[0].relation matches TableFactorAst::Table { name } && name@ == from_name
}

/// `WITH cte AS (SELECT x FROM src) SELECT x FROM cte`: the outer query
/// reads `x` from the CTE by its name `cte_ref`.
pub open spec fn cte_select_shape(
    stmt: StatementAst,
    cname: Seq<char>,
    x: Seq<char>,
    src: Seq<Seq<char>>,
    cte_ref: Seq<Seq<char>>,
) -> bool {
    stmt matches StatementAst::Query(q) && {
        &&& (*q).with matches Some(w) && {
            &&& w.cte_tables@.len() == 1
            &&& w.cte_tables@[0].alias@ == cname
            &&& w.cte_tables@[0].query.with is None
            &&& w.cte_tables@[0].query.body matches SetExprAst::Select(inner)
                && single_column_select_shape(*inner, x, src)
        }
        &&& (*q).body matches SetExprAst::Select(outer) && single_column_select_shape(*outer, x, cte_ref)
    }
}

/// On a fresh context, `WITH cte AS (SELECT x FROM src) SELECT x FROM cte`
/// succeeds; the CTE's name joins the aliases and the CTE's own source
/// joins the inputs.  The CTE reference itself also joins the inputs, since
/// alias resolution is left to the caller, and that is not asserted away
/// here.
pub proof fn lemma_cte_select(
    d: Dialect,
    ds: Option<Seq<char>>,
    stmt: StatementAst,
    cname: Seq<char>,
    x: Seq<char>,
    src: Seq<Seq<char>>,
    cte_ref: Seq<Seq<char>>,
)
    requires
        cte_select_shape(stmt, cname, x, src, cte_ref),
    ensures
        walk_statement(CtxView::init(d, ds), stmt) is Ok,
        walk_statement(CtxView::init(d, ds), stmt)->Ok_0.aliases.contains(cname),
        walk_statement(CtxView::init(d, ds), stmt)->Ok_0.inputs.contains(normalize(src, d, ds)),
    {
        reveal_with_fuel(walk_ctes_from, 3);
        reveal_with_fuel(walk_projections_from, 3);
        reveal_with_fuel(walk_from_tables_from, 3);
        reveal_with_fuel(walk_joins_from, 2);
        let c = CtxView::init(d, ds);
        let ts = normalize(src, d, ds);
        if let StatementAst::Query(qb) = stmt {
            let q = *qb;
            if let Some(w) = q.with {
                let cte = w.cte_tables@[0];
                let c1 = c.with_alias(cname);
                if let SetExprAst::Select(innerb) = cte.query.body {
                    let inner = *innerb;
                    let c0i = select_scoped(c1, inner);
                    assert(c0i == c1.with_table_scope(Some(ts)));
                    let cai = c0i.with_column_scope(Some(DescendantView::Named(x)));
                    let cbi = record_ancestor(cai, x).with_column_scope(c0i.column_scope);
                    assert(walk_projection(c0i, inner.projection@[0]) == Ok::<CtxView, WalkErr>(cbi));
                    assert(walk_projections_from(c0i, inner.projection@, 0) == Ok::<CtxView, WalkErr>(cbi));
                    let c3i = cbi.with_input(cbi.table_of(src));
                    assert(walk_table_with_joins(cbi, inner.from@[0]) == Ok::<CtxView, WalkErr>(c3i));
                    assert(walk_from_tables_from(cbi, inner.from@, 0) == Ok::<CtxView, WalkErr>(c3i));
                    let c2 = c3i.with_table_scope(c1.table_scope);
                    assert(walk_select(c1, inner) == Ok::<CtxView, WalkErr>(c2));
                    assert(walk_query(c1, cte.query) == Ok::<CtxView, WalkErr>(c2));
                    assert(walk_ctes_from(c, w.cte_tables@, 0) == Ok::<CtxView, WalkErr>(c2));
                    if let SetExprAst::Select(outerb) = q.body {
                        let outer = *outerb;
                        let tc = c2.table_of(cte_ref);
                        let c0o = select_scoped(c2, outer);
                        assert(c0o == c2.with_table_scope(Some(tc)));
                        let cao = c0o.with_column_scope(Some(DescendantView::Named(x)));
                        let cbo = record_ancestor(cao, x).with_column_scope(c0o.column_scope);
                        assert(walk_projection(c0o, outer.projection@[0]) == Ok::<CtxView, WalkErr>(cbo));
                        assert(walk_projections_from(c0o, outer.projection@, 0) == Ok::<CtxView, WalkErr>(cbo));
                        let c3o = cbo.with_input(cbo.table_of(cte_ref));
                        assert(walk_table_with_joins(cbo, outer.from@[0]) == Ok::<CtxView, WalkErr>(c3o));
                        assert(walk_from_tables_from(cbo, outer.from@, 0) == Ok::<CtxView, WalkErr>(c3o));
                        let out = c3o.with_table_scope(c2.table_scope);
                        assert(walk_select(c2, outer) == Ok::<CtxView, WalkErr>(out));
                        assert(walk_statement(c, stmt) == Ok::<CtxView, WalkErr>(out));
                        assert(out.aliases.contains(cname));
                        assert(out.inputs.contains(ts));
                    }
                }
            }
        }
    }

/// `DELETE FROM target WHERE <column> <op> <literal>`.
pub open spec fn delete_where_shape(stmt: StatementAst, target: Seq<Seq<char>>) -> bool {
    stmt matches StatementAst::Delete { table, using, selection } && {
        &&& table matches TableFactorAst::Table { name } && name@ == target
        &&& using is None
        &&& selection matches Some(sel) && sel matches ExprAst::BinaryOp { left, right }
            && (*left) is Identifier && (*right) is Opaque
    }
}

/// A `DELETE ... WHERE` walk succeeds even though the `WHERE` expression is
/// visited with no active descendant column: with no column scope the
/// identifier contributes nothing, and the only effect is the target
/// joining the outputs.
pub proof fn lemma_delete_where(c: CtxView, stmt: StatementAst, target: Seq<Seq<char>>)
    requires
        delete_where_shape(stmt, target),
        c.column_scope is None,
    ensures
        walk_statement(c, stmt) == Ok::<CtxView, WalkErr>(c.with_output(c.table_of(target))),
    {
    }

/// A `MERGE` whose target is anything but a plain named table fails with
/// the unsupported-target error.
pub proof fn lemma_merge_derived_target(c: CtxView, stmt: StatementAst)
    requires
        stmt matches StatementAst::Merge { table, source } && !(table is Table),
    ensures
        walk_statement(c, stmt) == Err::<CtxView, WalkErr>(WalkErr::UnsupportedTarget),
    {
    }

/// The walk is a function of the configuration and the statement alone: two
/// walks of the same statement from fresh contexts with the same
/// configuration yield the same result, inputs, outputs, aliases and
/// column lineage alike.
pub proof fn lemma_walk_idempotent(
    d: Dialect,
    ds: Option<Seq<char>>,
    s: StatementAst,
    r1: Result<CtxView, WalkErr>,
    r2: Result<CtxView, WalkErr>,
)
    requires
        r1 == walk_statement(CtxView::init(d, ds), s),
        r2 == walk_statement(CtxView::init(d, ds), s),
    ensures
        r1 == r2,
    {
    }

} // verus!
