use sql_lineage::meta::{ColumnRef, Descendant, Dialect, ObjectName, TableRef};

fn obj(parts: &[&str]) -> ObjectName {
    ObjectName::new(parts.iter().map(|p| p.to_string()).collect())
}

#[test]
fn qualified_name_keeps_its_own_schema() {
    let t = TableRef::new(&obj(&["sch", "t"]), Dialect::QualifyWithDefault, &Some("public".to_string()));
    assert_eq!(t.name, "t");
    assert_eq!(t.schema, Some("sch".to_string()));
}

#[test]
fn unqualified_name_takes_default_schema_when_dialect_qualifies() {
    let t = TableRef::new(&obj(&["t"]), Dialect::QualifyWithDefault, &Some("public".to_string()));
    assert_eq!(t.name, "t");
    assert_eq!(t.schema, Some("public".to_string()));
}

#[test]
fn unqualified_name_stays_bare_when_dialect_leaves_it() {
    let t = TableRef::new(&obj(&["t"]), Dialect::LeaveUnqualified, &Some("public".to_string()));
    assert_eq!(t.name, "t");
    assert_eq!(t.schema, None);
}

#[test]
fn three_part_name_uses_middle_part_as_schema() {
    let t = TableRef::new(&obj(&["db", "sch", "t"]), Dialect::LeaveUnqualified, &None);
    assert_eq!(t.name, "t");
    assert_eq!(t.schema, Some("sch".to_string()));
}

#[test]
fn empty_name_normalizes_without_panicking() {
    let t = TableRef::new(&obj(&[]), Dialect::QualifyWithDefault, &None);
    assert_eq!(t.name, "");
    assert_eq!(t.schema, None);
}

#[test]
fn table_refs_compare_by_normalized_form() {
    let dialect = Dialect::QualifyWithDefault;
    let ds = Some("public".to_string());
    let bare = TableRef::new(&obj(&["t"]), dialect, &ds);
    let qualified = TableRef::new(&obj(&["public", "t"]), dialect, &ds);
    assert_eq!(bare, qualified);
    let other = TableRef::new(&obj(&["other", "t"]), dialect, &ds);
    assert_ne!(bare, other);
}

#[test]
fn column_refs_compare_by_name_and_table() {
    let t = TableRef { schema: None, name: "s".to_string() };
    let a1 = ColumnRef { name: "a".to_string(), table: Some(t.clone()) };
    let a2 = ColumnRef::new("a".to_string(), Some(t));
    assert_eq!(a1, a2);
    let unowned = ColumnRef::new("a".to_string(), None);
    assert_ne!(a1, unowned);
}

#[test]
fn descendants_compare_by_kind_and_name() {
    assert_eq!(Descendant::Named("x".to_string()), Descendant::Named("x".to_string()));
    assert_ne!(Descendant::Named("x".to_string()), Descendant::Named("y".to_string()));
    assert_eq!(Descendant::Unnamed, Descendant::Unnamed);
    assert_ne!(Descendant::Named("x".to_string()), Descendant::Unnamed);
}
