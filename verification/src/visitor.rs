//! The dispatch engine: one traversal rule per syntactic node kind, composed
//! by direct recursion.  Each rule consumes a node, mutates the context, and
//! produces success or a descriptive failure; each is verified to compute
//! exactly the pure walk function of its node kind.

use vstd::prelude::*;
use crate::ast::{ExprAst, FunctionArgAst, FunctionArgExprAst, FunctionAst, QueryAst, SelectAst, SelectItemAst, SetExprAst, StatementAst, TableFactorAst, TableWithJoinsAst, WindowSpecAst, WithAst};
use crate::context::{Context, CtxView, opt_table_view, view_seq};
use crate::meta::{ColumnRef, ColumnView, ObjectName, TableRef};
use crate::walk::{WalkErr, record_ancestor, walk_ctes_from, walk_expr, walk_exprs_from, walk_fn_arg, walk_fn_arg_expr, walk_fn_args_from, walk_from_tables_from, walk_function, walk_joins_from, walk_projection, walk_projections_from, walk_query, walk_select, select_scoped, walk_set_expr, walk_statement, walk_table_factor, walk_table_with_joins, walk_window, walk_with};

verus! {

/// A node of the syntax tree that the engine can traverse.
pub trait Visit {
    /// The specified effect of visiting this node: the context view the walk
    /// produces, or the error that aborts it.
    spec fn walk(&self, c: CtxView) -> Result<CtxView, WalkErr>;

    /// Walks the node depth-first, left to right, mutating the context.
    fn visit(&self, context: &mut Context) -> (r: Result<(), WalkErr>)
        requires
            old(context).wf(),
        ensures
            final(context).wf(),
            r is Ok ==> self.walk(old(context)@) == Ok::<CtxView, WalkErr>(final(context)@),
            r is Err ==> self.walk(old(context)@) == Err::<CtxView, WalkErr>(r->Err_0),
    ;
}

/// The name of a plain table target.  `MERGE`, `UPDATE` and `DELETE` write
/// through this: any other table-factor shape there fails the walk.
pub fn table_factor_name(tf: &TableFactorAst) -> (r: Result<&ObjectName, WalkErr>)
    ensures
        r is Ok <==> *tf is Table,
        r is Ok ==> ((*tf) matches TableFactorAst::Table { name } && name == *r->Ok_0),
        r is Err ==> r->Err_0 == WalkErr::UnsupportedTarget,
{
    match tf {
        TableFactorAst::Table { name } => Ok(name),
        _ => Err(WalkErr::UnsupportedTarget),
    }
}

/// Walks a top-level statement.
pub fn visit_statement(s: &StatementAst, context: &mut Context) -> (r: Result<(), WalkErr>)
    requires
        old(context).wf(),
    ensures
        final(context).wf(),
        r is Ok ==> walk_statement(old(context)@, *s) == Ok::<CtxView, WalkErr>(final(context)@),
        r is Err ==> walk_statement(old(context)@, *s) == Err::<CtxView, WalkErr>(r->Err_0),
    decreases *s, 0int,
{
    match s {
        StatementAst::Query(q) => visit_query(&**q, context),
        StatementAst::Insert { table_name, source } => {
            match visit_query(&**source, context) {
                Ok(()) => {
                    context.add_output(table_name);
                    Ok(())
                },
                Err(e) => Err(e),
            }
        },
        StatementAst::Merge { table, source } => {
            match table_factor_name(table) {
                Ok(name) => {
                    context.add_output(name);
                    visit_table_factor(source, context)
                },
                Err(e) => Err(e),
            }
        },
        StatementAst::CreateTable { name, query, like, clone_source } => {
            match query {
                Some(q) => {
                    match visit_query(&**q, context) {
                        Ok(()) => {},
                        Err(e) => {
                            return Err(e);
                        },
                    }
                },
                None => {},
            }
            match like {
                Some(l) => context.add_input(l),
                None => {},
            }
            match clone_source {
                Some(cl) => context.add_input(cl),
                None => {},
            }
            context.add_output(name);
            Ok(())
        },
        StatementAst::Update { table, from, selection } => {
            match table_factor_name(&table.relation) {
                Ok(name) => {
                    context.add_output(name);
                    match from {
                        Some(t) => {
                            match visit_table_with_joins(t, context) {
                                Ok(()) => {},
                                Err(e) => {
                                    return Err(e);
                                },
                            }
                        },
                        None => {},
                    }
                    match selection {
                        Some(e) => visit_expr(e, context),
                        None => Ok(()),
                    }
                },
                Err(e) => Err(e),
            }
        },
        StatementAst::Delete { table, using, selection } => {
            match table_factor_name(table) {
                Ok(name) => {
                    context.add_output(name);
                    match using {
                        Some(u) => {
                            match visit_table_factor(u, context) {
                                Ok(()) => {},
                                Err(e) => {
                                    return Err(e);
                                },
                            }
                        },
                        None => {},
                    }
                    match selection {
                        Some(e) => visit_expr(e, context),
                        None => Ok(()),
                    }
                },
                Err(e) => Err(e),
            }
        },
        StatementAst::Other => Ok(()),
    }
}

/// Walks a query: its `WITH` block first, then its body.
pub fn visit_query(q: &QueryAst, context: &mut Context) -> (r: Result<(), WalkErr>)
    requires
        old(context).wf(),
    ensures
        final(context).wf(),
        r is Ok ==> walk_query(old(context)@, *q) == Ok::<CtxView, WalkErr>(final(context)@),
        r is Err ==> walk_query(old(context)@, *q) == Err::<CtxView, WalkErr>(r->Err_0),
    decreases *q, 0int,
{
    match &q.with {
        Some(w) => {
            match visit_with(w, context) {
                Ok(()) => {},
                Err(e) => {
                    return Err(e);
                },
            }
        },
        None => {},
    }
    visit_set_expr(&q.body, context)
}

/// Walks a `WITH` block: records each CTE's name as an alias, then walks its
/// defining query like an ordinary subquery.
pub fn visit_with(w: &WithAst, context: &mut Context) -> (r: Result<(), WalkErr>)
    requires
        old(context).wf(),
    ensures
        final(context).wf(),
        r is Ok ==> walk_with(old(context)@, *w) == Ok::<CtxView, WalkErr>(final(context)@),
        r is Err ==> walk_with(old(context)@, *w) == Err::<CtxView, WalkErr>(r->Err_0),
    decreases *w, 0int,
{
    let n = w.cte_tables.len();
    let mut i: usize = 0;
    while i < n
        invariant
            context.wf(),
            n == w.cte_tables@.len(),
            i <= n,
            walk_ctes_from(old(context)@, w.cte_tables@, 0) == walk_ctes_from(context@, w.cte_tables@, i as int),
        decreases n - i,
    {
        let cte = &w.cte_tables[i];
        context.add_alias(cte.alias.clone());
        match visit_query(&cte.query, context) {
            Ok(()) => {},
            Err(e) => {
                return Err(e);
            },
        }
        i += 1;
    }
    Ok(())
}

/// Walks a query body; both operands of a set operation are walked, in
/// syntactic order.
pub fn visit_set_expr(e: &SetExprAst, context: &mut Context) -> (r: Result<(), WalkErr>)
    requires
        old(context).wf(),
    ensures
        final(context).wf(),
        r is Ok ==> walk_set_expr(old(context)@, *e) == Ok::<CtxView, WalkErr>(final(context)@),
        r is Err ==> walk_set_expr(old(context)@, *e) == Err::<CtxView, WalkErr>(r->Err_0),
    decreases *e, 0int,
{
    match e {
        SetExprAst::Select(sel) => visit_select(&**sel, context),
        SetExprAst::Query(q) => visit_query(&**q, context),
        SetExprAst::SetOperation { left, right } => {
            match visit_set_expr(&**left, context) {
                Ok(()) => visit_set_expr(&**right, context),
                Err(e) => Err(e),
            }
        },
        SetExprAst::Values => Ok(()),
        SetExprAst::Insert(st) => visit_statement(&**st, context),
    }
}

/// Walks a `SELECT`: seeds the table scope from the first `FROM` item's
/// plain table, walks each projection item, records a `SELECT INTO` target,
/// walks every `FROM` relation and join target, and restores the enclosing
/// table scope on exit.
pub fn visit_select(sel: &SelectAst, context: &mut Context) -> (r: Result<(), WalkErr>)
    requires
        old(context).wf(),
    ensures
        final(context).wf(),
        r is Ok ==> walk_select(old(context)@, *sel) == Ok::<CtxView, WalkErr>(final(context)@),
        r is Err ==> walk_select(old(context)@, *sel) == Err::<CtxView, WalkErr>(r->Err_0),
    decreases *sel, 0int,
{
    let saved_table_scope = context.table_scope_copy();
    if sel.from.len() > 0 {
        match &sel.from[0].relation {
            TableFactorAst::Table { name } => {
                let d = context.dialect();
                let t = TableRef::new(name, d, context.default_schema());
                context.set_table_scope(Some(t));
            },
            _ => {},
        }
    }
    let ghost c0 = context@;
    let np = sel.projection.len();
    let mut i: usize = 0;
    while i < np
        invariant
            context.wf(),
            c0 == select_scoped(old(context)@, *sel),
            np == sel.projection@.len(),
            i <= np,
            walk_projections_from(c0, sel.projection@, 0) == walk_projections_from(context@, sel.projection@, i as int),
        decreases np - i,
    {
        match visit_projection(&sel.projection[i], context) {
            Ok(()) => {},
            Err(e) => {
                return Err(e);
            },
        }
        i += 1;
    }
    let ghost cp = context@;
    match &sel.into {
        Some(into) => context.add_output(into),
        None => {},
    }
    let ghost c2 = context@;
    let nf = sel.from.len();
    let mut ti: usize = 0;
    while ti < nf
        invariant
            context.wf(),
            c0 == select_scoped(old(context)@, *sel),
            walk_projections_from(c0, sel.projection@, 0) == Ok::<CtxView, WalkErr>(cp),
            c2 == (match sel.into {
                Some(n) => cp.with_output(cp.table_of(n@)),
                None => cp,
            }),
            opt_table_view(saved_table_scope) == old(context)@.table_scope,
            nf == sel.from@.len(),
            ti <= nf,
            walk_from_tables_from(c2, sel.from@, 0) == walk_from_tables_from(context@, sel.from@, ti as int),
        decreases nf - ti,
    {
        match visit_table_with_joins(&sel.from[ti], context) {
            Ok(()) => {},
            Err(e) => {
                return Err(e);
            },
        }
        ti += 1;
    }
    context.set_table_scope(saved_table_scope);
    Ok(())
}

/// Walks one projection item: establishes the descendant column scope, walks
/// the expression for ancestor discovery, registers an explicit alias, and
/// restores the enclosing column scope.
pub fn visit_projection(item: &SelectItemAst, context: &mut Context) -> (r: Result<(), WalkErr>)
    requires
        old(context).wf(),
    ensures
        final(context).wf(),
        r is Ok ==> walk_projection(old(context)@, *item) == Ok::<CtxView, WalkErr>(final(context)@),
        r is Err ==> walk_projection(old(context)@, *item) == Err::<CtxView, WalkErr>(r->Err_0),
    decreases *item, 0int,
{
    match item {
        SelectItemAst::UnnamedExpr(e) => {
            let saved = context.column_scope_copy();
            match e {
                ExprAst::Identifier(id) => {
                    context.set_column_scope(Some(ColumnRef::new(id.clone(), None)));
                },
                ExprAst::CompoundIdentifier(ids) => {
                    if ids.len() > 0 {
                        context.set_column_scope(Some(ColumnRef::new(ids[ids.len() - 1].clone(), None)));
                    } else {
                        context.set_unnamed_column_scope();
                    }
                },
                _ => {
                    context.set_unnamed_column_scope();
                },
            }
            match visit_expr(e, context) {
                Ok(()) => {},
                Err(err) => {
                    return Err(err);
                },
            }
            context.restore_column_scope(saved);
            Ok(())
        },
        SelectItemAst::ExprWithAlias { expr, alias } => {
            let saved = context.column_scope_copy();
            context.set_column_scope(Some(ColumnRef::new(alias.clone(), None)));
            match visit_expr(expr, context) {
                Ok(()) => {},
                Err(err) => {
                    return Err(err);
                },
            }
            context.add_alias(alias.clone());
            context.restore_column_scope(saved);
            Ok(())
        },
        SelectItemAst::Opaque => Ok(()),
    }
}

/// Walks an expression in lineage-extraction mode.
pub fn visit_expr(e: &ExprAst, context: &mut Context) -> (r: Result<(), WalkErr>)
    requires
        old(context).wf(),
    ensures
        final(context).wf(),
        r is Ok ==> walk_expr(old(context)@, *e) == Ok::<CtxView, WalkErr>(final(context)@),
        r is Err ==> walk_expr(old(context)@, *e) == Err::<CtxView, WalkErr>(r->Err_0),
    decreases *e, 0int,
{
    match e {
        ExprAst::Identifier(id) => {
            record_identifier(id, context);
            Ok(())
        },
        ExprAst::CompoundIdentifier(ids) => {
            if ids.len() > 0 {
                record_identifier(&ids[ids.len() - 1], context);
            }
            Ok(())
        },
        ExprAst::Subquery(q) => visit_query(&**q, context),
        ExprAst::InSubquery { expr: _, subquery, negated: _ } => visit_query(&**subquery, context),
        ExprAst::BinaryOp { left, right } => {
            match visit_expr(&**left, context) {
                Ok(()) => visit_expr(&**right, context),
                Err(err) => Err(err),
            }
        },
        ExprAst::UnaryOp { expr } => visit_expr(&**expr, context),
        ExprAst::Case { operand: _, conditions, results: _, else_result: _ } => {
            let n = conditions.len();
            let mut i: usize = 0;
            while i < n
                invariant
                    context.wf(),
                    *e is Case,
                    conditions@ == e->Case_conditions@,
                    n == conditions@.len(),
                    i <= n,
                    walk_exprs_from(old(context)@, conditions@, 0) == walk_exprs_from(context@, conditions@, i as int),
                decreases n - i,
            {
                proof {
                    assert(decreases_to!(*e, 0int => conditions@[i as int], 0int));
                }
                match visit_expr(&conditions[i], context) {
                    Ok(()) => {},
                    Err(err) => {
                        return Err(err);
                    },
                }
                i += 1;
            }
            Ok(())
        },
        ExprAst::Function(f) => visit_function(f, context),
        ExprAst::Opaque => Ok(()),
    }
}

/// Records one ancestor column, named by the given identifier and attributed
/// to the table currently in scope, for the active descendant; a no-op when
/// no descendant is active.
fn record_identifier(id: &String, context: &mut Context)
    requires
        old(context).wf(),
    ensures
        final(context).wf(),
        final(context)@ == record_ancestor(old(context)@, id@),
{
    let scope = context.column_scope_copy();
    match scope {
        Some(d) => {
            let ghost cv = context@;
            let t = context.table_scope_copy();
            let anc = ColumnRef::new(id.clone(), t);
            let mut ancs: Vec<ColumnRef> = Vec::new();
            ancs.push(anc);
            proof {
                assert(view_seq(ancs@) =~= seq![ColumnView { name: id@, table: cv.table_scope }]);
            }
            context.add_column_ancestors(d, ancs);
        },
        None => {},
    }
}

/// Walks a function call: every argument expression, then the attached
/// window specification, if any.
pub fn visit_function(f: &FunctionAst, context: &mut Context) -> (r: Result<(), WalkErr>)
    requires
        old(context).wf(),
    ensures
        final(context).wf(),
        r is Ok ==> walk_function(old(context)@, *f) == Ok::<CtxView, WalkErr>(final(context)@),
        r is Err ==> walk_function(old(context)@, *f) == Err::<CtxView, WalkErr>(r->Err_0),
    decreases *f, 0int,
{
    let n = f.args.len();
    let mut i: usize = 0;
    while i < n
        invariant
            context.wf(),
            n == f.args@.len(),
            i <= n,
            walk_fn_args_from(old(context)@, f.args@, 0) == walk_fn_args_from(context@, f.args@, i as int),
        decreases n - i,
    {
        match visit_function_arg(&f.args[i], context) {
            Ok(()) => {},
            Err(e) => {
                return Err(e);
            },
        }
        i += 1;
    }
    match &f.over {
        Some(w) => visit_window_spec(w, context),
        None => Ok(()),
    }
}

/// Walks one function argument.
pub fn visit_function_arg(a: &FunctionArgAst, context: &mut Context) -> (r: Result<(), WalkErr>)
    requires
        old(context).wf(),
    ensures
        final(context).wf(),
        r is Ok ==> walk_fn_arg(old(context)@, *a) == Ok::<CtxView, WalkErr>(final(context)@),
        r is Err ==> walk_fn_arg(old(context)@, *a) == Err::<CtxView, WalkErr>(r->Err_0),
    decreases *a, 0int,
{
    match a {
        FunctionArgAst::Named { name: _, arg } => visit_function_arg_expr(arg, context),
        FunctionArgAst::Unnamed(arg) => visit_function_arg_expr(arg, context),
    }
}

/// Walks the expression inside a function argument.
pub fn visit_function_arg_expr(a: &FunctionArgExprAst, context: &mut Context) -> (r: Result<(), WalkErr>)
    requires
        old(context).wf(),
    ensures
        final(context).wf(),
        r is Ok ==> walk_fn_arg_expr(old(context)@, *a) == Ok::<CtxView, WalkErr>(final(context)@),
        r is Err ==> walk_fn_arg_expr(old(context)@, *a) == Err::<CtxView, WalkErr>(r->Err_0),
    decreases *a, 0int,
{
    match a {
        FunctionArgExprAst::Expr(e) => visit_expr(e, context),
        FunctionArgExprAst::Opaque => Ok(()),
    }
}

/// Walks a window specification: its partition-by expressions, then its
/// order-by expressions.
pub fn visit_window_spec(w: &WindowSpecAst, context: &mut Context) -> (r: Result<(), WalkErr>)
    requires
        old(context).wf(),
    ensures
        final(context).wf(),
        r is Ok ==> walk_window(old(context)@, *w) == Ok::<CtxView, WalkErr>(final(context)@),
        r is Err ==> walk_window(old(context)@, *w) == Err::<CtxView, WalkErr>(r->Err_0),
    decreases *w, 0int,
{
    let np = w.partition_by.len();
    let mut i: usize = 0;
    while i < np
        invariant
            context.wf(),
            np == w.partition_by@.len(),
            i <= np,
            walk_exprs_from(old(context)@, w.partition_by@, 0) == walk_exprs_from(context@, w.partition_by@, i as int),
        decreases np - i,
    {
        match visit_expr(&w.partition_by[i], context) {
            Ok(()) => {},
            Err(e) => {
                return Err(e);
            },
        }
        i += 1;
    }
    let ghost c1 = context@;
    let no = w.order_by.len();
    let mut j: usize = 0;
    while j < no
        invariant
            context.wf(),
            walk_exprs_from(old(context)@, w.partition_by@, 0) == Ok::<CtxView, WalkErr>(c1),
            no == w.order_by@.len(),
            j <= no,
            walk_exprs_from(c1, w.order_by@, 0) == walk_exprs_from(context@, w.order_by@, j as int),
        decreases no - j,
    {
        match visit_expr(&w.order_by[j], context) {
            Ok(()) => {},
            Err(e) => {
                return Err(e);
            },
        }
        j += 1;
    }
    Ok(())
}

/// Walks a table source: a plain table becomes an input; a derived table is
/// walked as a subquery and its alias recorded; any other shape aborts the
/// walk.
pub fn visit_table_factor(tf: &TableFactorAst, context: &mut Context) -> (r: Result<(), WalkErr>)
    requires
        old(context).wf(),
    ensures
        final(context).wf(),
        r is Ok ==> walk_table_factor(old(context)@, *tf) == Ok::<CtxView, WalkErr>(final(context)@),
        r is Err ==> walk_table_factor(old(context)@, *tf) == Err::<CtxView, WalkErr>(r->Err_0),
    decreases *tf, 0int,
{
    match tf {
        TableFactorAst::Table { name } => {
            context.add_input(name);
            Ok(())
        },
        TableFactorAst::Derived { subquery, alias } => {
            match visit_query(&**subquery, context) {
                Ok(()) => {
                    match alias {
                        Some(a) => context.add_alias(a.clone()),
                        None => {},
                    }
                    Ok(())
                },
                Err(e) => Err(e),
            }
        },
        TableFactorAst::Unsupported => Err(WalkErr::UnsupportedTableSource),
    }
}

/// Walks one `FROM` item: its relation, then each of its join targets.
pub fn visit_table_with_joins(t: &TableWithJoinsAst, context: &mut Context) -> (r: Result<(), WalkErr>)
    requires
        old(context).wf(),
    ensures
        final(context).wf(),
        r is Ok ==> walk_table_with_joins(old(context)@, *t) == Ok::<CtxView, WalkErr>(final(context)@),
        r is Err ==> walk_table_with_joins(old(context)@, *t) == Err::<CtxView, WalkErr>(r->Err_0),
    decreases *t, 0int,
{
    match visit_table_factor(&t.relation, context) {
        Ok(()) => {},
        Err(e) => {
            return Err(e);
        },
    }
    let ghost c1 = context@;
    let n = t.joins.len();
    let mut i: usize = 0;
    while i < n
        invariant
            context.wf(),
            walk_table_factor(old(context)@, t.relation) == Ok::<CtxView, WalkErr>(c1),
            n == t.joins@.len(),
            i <= n,
            walk_joins_from(c1, t.joins@, 0) == walk_joins_from(context@, t.joins@, i as int),
        decreases n - i,
    {
        match visit_table_factor(&t.joins[i], context) {
            Ok(()) => {},
            Err(e) => {
                return Err(e);
            },
        }
        i += 1;
    }
    Ok(())
}

impl Visit for StatementAst {
    open spec fn walk(&self, c: CtxView) -> Result<CtxView, WalkErr> {
        walk_statement(c, *self)
    }

    fn visit(&self, context: &mut Context) -> (r: Result<(), WalkErr>) {
        visit_statement(self, context)
    }
}

impl Visit for QueryAst {
    open spec fn walk(&self, c: CtxView) -> Result<CtxView, WalkErr> {
        walk_query(c, *self)
    }

    fn visit(&self, context: &mut Context) -> (r: Result<(), WalkErr>) {
        visit_query(self, context)
    }
}

impl Visit for WithAst {
    open spec fn walk(&self, c: CtxView) -> Result<CtxView, WalkErr> {
        walk_with(c, *self)
    }

    fn visit(&self, context: &mut Context) -> (r: Result<(), WalkErr>) {
        visit_with(self, context)
    }
}

impl Visit for SetExprAst {
    open spec fn walk(&self, c: CtxView) -> Result<CtxView, WalkErr> {
        walk_set_expr(c, *self)
    }

    fn visit(&self, context: &mut Context) -> (r: Result<(), WalkErr>) {
        visit_set_expr(self, context)
    }
}

impl Visit for SelectAst {
    open spec fn walk(&self, c: CtxView) -> Result<CtxView, WalkErr> {
        walk_select(c, *self)
    }

    fn visit(&self, context: &mut Context) -> (r: Result<(), WalkErr>) {
        visit_select(self, context)
    }
}

impl Visit for ExprAst {
    open spec fn walk(&self, c: CtxView) -> Result<CtxView, WalkErr> {
        walk_expr(c, *self)
    }

    fn visit(&self, context: &mut Context) -> (r: Result<(), WalkErr>) {
        visit_expr(self, context)
    }
}

impl Visit for FunctionAst {
    open spec fn walk(&self, c: CtxView) -> Result<CtxView, WalkErr> {
        walk_function(c, *self)
    }

    fn visit(&self, context: &mut Context) -> (r: Result<(), WalkErr>) {
        visit_function(self, context)
    }
}

impl Visit for FunctionArgAst {
    open spec fn walk(&self, c: CtxView) -> Result<CtxView, WalkErr> {
        walk_fn_arg(c, *self)
    }

    fn visit(&self, context: &mut Context) -> (r: Result<(), WalkErr>) {
        visit_function_arg(self, context)
    }
}

impl Visit for FunctionArgExprAst {
    open spec fn walk(&self, c: CtxView) -> Result<CtxView, WalkErr> {
        walk_fn_arg_expr(c, *self)
    }

    fn visit(&self, context: &mut Context) -> (r: Result<(), WalkErr>) {
        visit_function_arg_expr(self, context)
    }
}

impl Visit for WindowSpecAst {
    open spec fn walk(&self, c: CtxView) -> Result<CtxView, WalkErr> {
        walk_window(c, *self)
    }

    fn visit(&self, context: &mut Context) -> (r: Result<(), WalkErr>) {
        visit_window_spec(self, context)
    }
}

impl Visit for TableFactorAst {
    open spec fn walk(&self, c: CtxView) -> Result<CtxView, WalkErr> {
        walk_table_factor(c, *self)
    }

    fn visit(&self, context: &mut Context) -> (r: Result<(), WalkErr>) {
        visit_table_factor(self, context)
    }
}

} // verus!
