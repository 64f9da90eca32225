use sql_lineage::ast::{CteAst, ExprAst, FunctionArgAst, FunctionArgExprAst, FunctionAst, QueryAst, SelectAst, SelectItemAst, SetExprAst, StatementAst, TableFactorAst, TableWithJoinsAst, WindowSpecAst, WithAst};
use sql_lineage::context::Context;
use sql_lineage::meta::{ColumnRef, Descendant, Dialect, ObjectName, TableRef};
use sql_lineage::visitor::{visit_statement, Visit};
use sql_lineage::walk::WalkErr;

fn obj(parts: &[&str]) -> ObjectName {
    ObjectName::new(parts.iter().map(|p| p.to_string()).collect())
}

fn table(parts: &[&str]) -> TableFactorAst {
    TableFactorAst::Table { name: obj(parts) }
}

fn plain_from(parts: &[&str]) -> Vec<TableWithJoinsAst> {
    vec![TableWithJoinsAst { relation: table(parts), joins: Vec::new() }]
}

fn bare_table_ref(name: &str) -> TableRef {
    TableRef { schema: None, name: name.to_string() }
}

fn select_query(projection: Vec<SelectItemAst>, from: Vec<TableWithJoinsAst>) -> QueryAst {
    QueryAst {
        with: None,
        body: SetExprAst::Select(Box::new(SelectAst { projection, into: None, from })),
    }
}

fn fresh() -> Context {
    Context::new(Dialect::LeaveUnqualified, None)
}

fn ident(name: &str) -> ExprAst {
    ExprAst::Identifier(name.to_string())
}

fn named(name: &str) -> Descendant {
    Descendant::Named(name.to_string())
}

#[test]
fn insert_select_star_outputs_and_inputs() {
    let stmt = StatementAst::Insert {
        table_name: obj(&["t"]),
        source: Box::new(select_query(vec![SelectItemAst::Opaque], plain_from(&["s"]))),
    };
    let mut ctx = fresh();
    assert!(visit_statement(&stmt, &mut ctx).is_ok());
    assert!(ctx.contains_output(&bare_table_ref("t")));
    assert_eq!(ctx.output_len(), 1);
    assert!(ctx.contains_input(&bare_table_ref("s")));
    assert_eq!(ctx.lineage_len(), 0);
}

#[test]
fn create_table_like_records_both_tables() {
    let stmt = StatementAst::CreateTable {
        name: obj(&["t"]),
        query: None,
        like: Some(obj(&["s"])),
        clone_source: None,
    };
    let mut ctx = fresh();
    assert!(visit_statement(&stmt, &mut ctx).is_ok());
    assert!(ctx.contains_output(&bare_table_ref("t")));
    assert_eq!(ctx.output_len(), 1);
    assert!(ctx.contains_input(&bare_table_ref("s")));
    assert_eq!(ctx.input_len(), 1);
    assert_eq!(ctx.lineage_len(), 0);
}

#[test]
fn create_table_clone_records_source() {
    let stmt = StatementAst::CreateTable {
        name: obj(&["t"]),
        query: None,
        like: None,
        clone_source: Some(obj(&["orig"])),
    };
    let mut ctx = fresh();
    assert!(visit_statement(&stmt, &mut ctx).is_ok());
    assert!(ctx.contains_output(&bare_table_ref("t")));
    assert!(ctx.contains_input(&bare_table_ref("orig")));
}

#[test]
fn select_alias_and_bare_column_lineage() {
    let stmt = StatementAst::Query(Box::new(select_query(
        vec![
            SelectItemAst::ExprWithAlias { expr: ident("a"), alias: "x".to_string() },
            SelectItemAst::UnnamedExpr(ident("b")),
        ],
        plain_from(&["s"]),
    )));
    let mut ctx = fresh();
    assert!(visit_statement(&stmt, &mut ctx).is_ok());
    let s = bare_table_ref("s");
    let anc_x = ctx.ancestors_of(&named("x")).expect("x has ancestors");
    assert_eq!(anc_x.len(), 1);
    assert_eq!(anc_x[0], ColumnRef { name: "a".to_string(), table: Some(s.clone()) });
    let anc_b = ctx.ancestors_of(&named("b")).expect("b has ancestors");
    assert_eq!(anc_b.len(), 1);
    assert_eq!(anc_b[0], ColumnRef { name: "b".to_string(), table: Some(s.clone()) });
    assert!(ctx.contains_input(&s));
    assert_eq!(ctx.input_len(), 1);
    assert!(ctx.contains_alias(&"x".to_string()));
}

#[test]
fn select_sum_alias_accumulates_both_ancestors_in_order() {
    let stmt = StatementAst::Query(Box::new(select_query(
        vec![SelectItemAst::ExprWithAlias {
            expr: ExprAst::BinaryOp { left: Box::new(ident("a")), right: Box::new(ident("b")) },
            alias: "total".to_string(),
        }],
        plain_from(&["s"]),
    )));
    let mut ctx = fresh();
    assert!(visit_statement(&stmt, &mut ctx).is_ok());
    let s = bare_table_ref("s");
    let anc = ctx.ancestors_of(&named("total")).expect("total has ancestors");
    assert_eq!(anc.len(), 2);
    assert_eq!(anc[0], ColumnRef { name: "a".to_string(), table: Some(s.clone()) });
    assert_eq!(anc[1], ColumnRef { name: "b".to_string(), table: Some(s) });
}

#[test]
fn add_column_ancestors_appends_never_overwrites() {
    let mut ctx = fresh();
    ctx.add_column_ancestors(
        named("x"),
        vec![ColumnRef { name: "a".to_string(), table: None }],
    );
    ctx.add_column_ancestors(
        named("x"),
        vec![ColumnRef { name: "b".to_string(), table: None }],
    );
    let anc = ctx.ancestors_of(&named("x")).expect("x has ancestors");
    assert_eq!(anc.len(), 2);
    assert_eq!(anc[0].name, "a");
    assert_eq!(anc[1].name, "b");
}

#[test]
fn cte_records_alias_and_inner_source() {
    let inner = select_query(
        vec![SelectItemAst::UnnamedExpr(ident("x"))],
        plain_from(&["s"]),
    );
    let outer = SelectAst {
        projection: vec![SelectItemAst::UnnamedExpr(ident("x"))],
        into: None,
        from: plain_from(&["c"]),
    };
    let stmt = StatementAst::Query(Box::new(QueryAst {
        with: Some(WithAst {
            cte_tables: vec![CteAst { alias: "c".to_string(), query: inner }],
        }),
        body: SetExprAst::Select(Box::new(outer)),
    }));
    let mut ctx = fresh();
    assert!(visit_statement(&stmt, &mut ctx).is_ok());
    assert!(ctx.contains_alias(&"c".to_string()));
    assert!(ctx.contains_input(&bare_table_ref("s")));
    // alias filtering is the caller's responsibility: the CTE reference is
    // reported as an input too
    assert!(ctx.contains_input(&bare_table_ref("c")));
}

#[test]
fn delete_with_where_succeeds_without_column_scope() {
    let stmt = StatementAst::Delete {
        table: table(&["t"]),
        using: None,
        selection: Some(ExprAst::BinaryOp {
            left: Box::new(ident("k")),
            right: Box::new(ExprAst::Opaque),
        }),
    };
    let mut ctx = fresh();
    assert!(visit_statement(&stmt, &mut ctx).is_ok());
    assert!(ctx.contains_output(&bare_table_ref("t")));
    assert_eq!(ctx.output_len(), 1);
    assert_eq!(ctx.lineage_len(), 0);
}

#[test]
fn merge_into_derived_target_fails() {
    let derived = TableFactorAst::Derived {
        subquery: Box::new(QueryAst { with: None, body: SetExprAst::Values }),
        alias: Some("m".to_string()),
    };
    let stmt = StatementAst::Merge { table: derived, source: table(&["s"]) };
    let mut ctx = fresh();
    assert_eq!(visit_statement(&stmt, &mut ctx), Err(WalkErr::UnsupportedTarget));
}

#[test]
fn merge_into_plain_table_records_output_and_source() {
    let stmt = StatementAst::Merge { table: table(&["t"]), source: table(&["s"]) };
    let mut ctx = fresh();
    assert!(visit_statement(&stmt, &mut ctx).is_ok());
    assert!(ctx.contains_output(&bare_table_ref("t")));
    assert!(ctx.contains_input(&bare_table_ref("s")));
}

#[test]
fn unsupported_table_factor_fails_the_walk() {
    let stmt = StatementAst::Query(Box::new(select_query(
        vec![SelectItemAst::Opaque],
        vec![TableWithJoinsAst { relation: TableFactorAst::Unsupported, joins: Vec::new() }],
    )));
    let mut ctx = fresh();
    assert_eq!(visit_statement(&stmt, &mut ctx), Err(WalkErr::UnsupportedTableSource));
}

#[test]
fn update_with_from_and_where() {
    let stmt = StatementAst::Update {
        table: TableWithJoinsAst { relation: table(&["t"]), joins: Vec::new() },
        from: Some(TableWithJoinsAst { relation: table(&["u"]), joins: Vec::new() }),
        selection: Some(ident("k")),
    };
    let mut ctx = fresh();
    assert!(visit_statement(&stmt, &mut ctx).is_ok());
    assert!(ctx.contains_output(&bare_table_ref("t")));
    assert!(ctx.contains_input(&bare_table_ref("u")));
}

#[test]
fn update_on_derived_target_fails() {
    let derived = TableFactorAst::Derived {
        subquery: Box::new(QueryAst { with: None, body: SetExprAst::Values }),
        alias: None,
    };
    let stmt = StatementAst::Update {
        table: TableWithJoinsAst { relation: derived, joins: Vec::new() },
        from: None,
        selection: None,
    };
    let mut ctx = fresh();
    assert_eq!(visit_statement(&stmt, &mut ctx), Err(WalkErr::UnsupportedTarget));
}

#[test]
fn walk_is_idempotent_across_fresh_contexts() {
    let build = || {
        StatementAst::Query(Box::new(select_query(
            vec![
                SelectItemAst::ExprWithAlias { expr: ident("a"), alias: "x".to_string() },
                SelectItemAst::UnnamedExpr(ident("b")),
            ],
            plain_from(&["s"]),
        )))
    };
    let mut c1 = fresh();
    let mut c2 = fresh();
    assert!(build().visit(&mut c1).is_ok());
    assert!(visit_statement(&build(), &mut c2).is_ok());
    assert_eq!(c1.input_len(), c2.input_len());
    assert_eq!(c1.output_len(), c2.output_len());
    assert_eq!(c1.lineage_len(), c2.lineage_len());
    assert!(c1.contains_input(&bare_table_ref("s")) && c2.contains_input(&bare_table_ref("s")));
    assert_eq!(
        c1.ancestors_of(&named("x")).expect("x in first run"),
        c2.ancestors_of(&named("x")).expect("x in second run"),
    );
    assert_eq!(
        c1.ancestors_of(&named("b")).expect("b in first run"),
        c2.ancestors_of(&named("b")).expect("b in second run"),
    );
}

#[test]
fn unnamed_projection_uses_anonymous_descendant() {
    let stmt = StatementAst::Query(Box::new(select_query(
        vec![SelectItemAst::UnnamedExpr(ExprAst::BinaryOp {
            left: Box::new(ident("a")),
            right: Box::new(ExprAst::Opaque),
        })],
        plain_from(&["s"]),
    )));
    let mut ctx = fresh();
    assert!(visit_statement(&stmt, &mut ctx).is_ok());
    let anc = ctx.ancestors_of(&Descendant::Unnamed).expect("anonymous descendant recorded");
    assert_eq!(anc.len(), 1);
    assert_eq!(anc[0].name, "a");
}

#[test]
fn compound_identifier_projection_uses_last_segment() {
    let stmt = StatementAst::Query(Box::new(select_query(
        vec![SelectItemAst::UnnamedExpr(ExprAst::CompoundIdentifier(vec![
            "t1".to_string(),
            "a".to_string(),
        ]))],
        plain_from(&["s"]),
    )));
    let mut ctx = fresh();
    assert!(visit_statement(&stmt, &mut ctx).is_ok());
    let anc = ctx.ancestors_of(&named("a")).expect("a recorded");
    assert_eq!(anc.len(), 1);
    assert_eq!(anc[0].name, "a");
}

#[test]
fn select_into_records_output() {
    let sel = SelectAst {
        projection: vec![SelectItemAst::Opaque],
        into: Some(obj(&["dst"])),
        from: plain_from(&["s"]),
    };
    let stmt = StatementAst::Query(Box::new(QueryAst {
        with: None,
        body: SetExprAst::Select(Box::new(sel)),
    }));
    let mut ctx = fresh();
    assert!(visit_statement(&stmt, &mut ctx).is_ok());
    assert!(ctx.contains_output(&bare_table_ref("dst")));
    assert!(ctx.contains_input(&bare_table_ref("s")));
}

#[test]
fn union_collects_inputs_from_both_sides() {
    let left = SetExprAst::Select(Box::new(SelectAst {
        projection: vec![SelectItemAst::Opaque],
        into: None,
        from: plain_from(&["a"]),
    }));
    let right = SetExprAst::Select(Box::new(SelectAst {
        projection: vec![SelectItemAst::Opaque],
        into: None,
        from: plain_from(&["b"]),
    }));
    let stmt = StatementAst::Query(Box::new(QueryAst {
        with: None,
        body: SetExprAst::SetOperation { left: Box::new(left), right: Box::new(right) },
    }));
    let mut ctx = fresh();
    assert!(visit_statement(&stmt, &mut ctx).is_ok());
    assert!(ctx.contains_input(&bare_table_ref("a")));
    assert!(ctx.contains_input(&bare_table_ref("b")));
    assert_eq!(ctx.input_len(), 2);
}

#[test]
fn window_function_partition_and_order_feed_lineage() {
    let func = FunctionAst {
        args: vec![FunctionArgAst::Unnamed(FunctionArgExprAst::Expr(ident("y")))],
        over: Some(WindowSpecAst {
            partition_by: vec![ident("p")],
            order_by: vec![ident("o")],
        }),
    };
    let stmt = StatementAst::Query(Box::new(select_query(
        vec![SelectItemAst::ExprWithAlias {
            expr: ExprAst::Function(func),
            alias: "w".to_string(),
        }],
        plain_from(&["s"]),
    )));
    let mut ctx = fresh();
    assert!(visit_statement(&stmt, &mut ctx).is_ok());
    let anc = ctx.ancestors_of(&named("w")).expect("w recorded");
    assert_eq!(anc.len(), 3);
    assert_eq!(anc[0].name, "y");
    assert_eq!(anc[1].name, "p");
    assert_eq!(anc[2].name, "o");
}

#[test]
fn in_subquery_contributes_inner_inputs() {
    let sub = select_query(vec![SelectItemAst::Opaque], plain_from(&["inner_t"]));
    let stmt = StatementAst::Query(Box::new(select_query(
        vec![SelectItemAst::UnnamedExpr(ExprAst::InSubquery {
            expr: Box::new(ident("k")),
            subquery: Box::new(sub),
            negated: false,
        })],
        plain_from(&["outer_t"]),
    )));
    let mut ctx = fresh();
    assert!(visit_statement(&stmt, &mut ctx).is_ok());
    assert!(ctx.contains_input(&bare_table_ref("inner_t")));
    assert!(ctx.contains_input(&bare_table_ref("outer_t")));
}

#[test]
fn unsupported_statement_kind_is_a_silent_no_op() {
    let mut ctx = fresh();
    assert!(visit_statement(&StatementAst::Other, &mut ctx).is_ok());
    assert_eq!(ctx.input_len(), 0);
    assert_eq!(ctx.output_len(), 0);
    assert_eq!(ctx.lineage_len(), 0);
}

#[test]
fn error_descriptions_name_the_failure() {
    assert_eq!(
        WalkErr::UnsupportedTableSource.describe(),
        "table factor other than table or subquery not implemented",
    );
    assert_eq!(
        WalkErr::UnsupportedTarget.describe(),
        "name can be taken only from a plain table target",
    );
}

#[test]
fn successful_walk_restores_empty_scopes() {
    let stmt = StatementAst::Query(Box::new(select_query(
        vec![SelectItemAst::UnnamedExpr(ident("a"))],
        plain_from(&["s"]),
    )));
    let mut ctx = fresh();
    assert!(visit_statement(&stmt, &mut ctx).is_ok());
    assert!(ctx.table_scope_copy().is_none());
    assert!(ctx.column_scope_copy().is_none());
    assert!(ctx.current_table_scope().is_none());
    assert!(ctx.current_column_scope().is_none());
}
