//! The lineage metadata model: normalized table references, column
//! references, and the descendant-column marker used as the key of the
//! column-ancestry map.

use vstd::prelude::*;

verus! {

/// How the dialect resolves a table name that is written without an explicit
/// schema qualifier.  This is the identifier-normalization rule supplied by
/// the caller as configuration; the walk itself never inspects it beyond
/// handing it to [`TableRef::new`].
#[derive(Clone, Copy, Debug, PartialEq, Eq, Structural)]
pub enum Dialect {
    /// An unqualified name is resolved against the configured default schema.
    QualifyWithDefault,
    /// An unqualified name stays unqualified.
    LeaveUnqualified,
}

/// A possibly qualified object name exactly as written in the statement:
/// its dot-separated parts, left to right.
#[derive(Debug, Clone)]
pub struct ObjectName {
    pub parts: Vec<String>,
}

impl View for ObjectName {
    type V = Seq<Seq<char>>;

    open spec fn view(&self) -> Seq<Seq<char>> {
        self.parts@.map_values(|p: String| p@)
    }
}

impl ObjectName {
    /// A name consisting of the given parts.
    pub fn new(parts: Vec<String>) -> (r: ObjectName)
        ensures
            r.parts@ == parts@,
    {
        ObjectName { parts }
    }
}

/// The mathematical value of a [`TableRef`].
#[verifier::ext_equal]
pub ghost struct TableView {
    pub schema: Option<Seq<char>>,
    pub name: Seq<char>,
}

/// The normalized form that a raw object name takes under a dialect and a
/// default schema: the last part is the table name; the part before it, if
/// any, is the schema; an unqualified name takes the default schema only
/// when the dialect says so.
pub open spec fn normalize(parts: Seq<Seq<char>>, dialect: Dialect, default_schema: Option<Seq<char>>) -> TableView {
    TableView {
        name: if parts.len() == 0 {
            Seq::<char>::empty()
        } else {
            parts.last()
        },
        schema: if parts.len() >= 2 {
            Some(parts[parts.len() - 2])
        } else if dialect is QualifyWithDefault {
            default_schema
        } else {
            None
        },
    }
}

/// The view of an optional owned string.
pub open spec fn opt_str_view(s: Option<String>) -> Option<Seq<char>> {
    match s {
        Some(v) => Some(v@),
        None => None,
    }
}

/// A normalized reference to a physical or derived table.  Immutable once
/// constructed; two references are equal iff their normalized forms match.
#[derive(Debug, Clone)]
pub struct TableRef {
    pub schema: Option<String>,
    pub name: String,
}

impl View for TableRef {
    type V = TableView;

    open spec fn view(&self) -> TableView {
        TableView { schema: opt_str_view(self.schema), name: self.name@ }
    }
}

impl TableRef {
    /// Normalizes a raw object name: never fails, and is deterministic in
    /// its arguments.
    pub fn new(raw: &ObjectName, dialect: Dialect, default_schema: &Option<String>) -> (r: TableRef)
        ensures
            r@ == normalize(raw@, dialect, opt_str_view(*default_schema)),
    {
        let n = raw.parts.len();
        let name: String = if n == 0 {
            String::new()
        } else {
            raw.parts[n - 1].clone()
        };
        let schema: Option<String> = if n >= 2 {
            Some(raw.parts[n - 2].clone())
        } else {
            match dialect {
                Dialect::QualifyWithDefault => default_schema.clone(),
                Dialect::LeaveUnqualified => None,
            }
        };
        let r = TableRef { schema, name };
        proof {
            assert(r@ =~= normalize(raw@, dialect, opt_str_view(*default_schema)));
        }
        r
    }
}

impl PartialEq for TableRef {
    fn eq(&self, other: &TableRef) -> (r: bool)
        ensures
            r == (self@ == other@),
    {
        let schema_eq = match (&self.schema, &other.schema) {
            (None, None) => true,
            (Some(a), Some(b)) => *a == *b,
            _ => false,
        };
        let r = schema_eq && self.name == other.name;
        proof {
            if r {
                assert(self@ =~= other@);
            }
        }
        r
    }
}

impl vstd::std_specs::cmp::PartialEqSpecImpl for TableRef {
    open spec fn obeys_eq_spec() -> bool {
        true
    }

    open spec fn eq_spec(&self, other: &TableRef) -> bool {
        self@ == other@
    }
}

/// The mathematical value of a [`ColumnRef`].
#[verifier::ext_equal]
pub ghost struct ColumnView {
    pub name: Seq<char>,
    pub table: Option<TableView>,
}

/// A column name plus an optional owning table.  An absent table means the
/// owning table is unknown or ambiguous at that point of the walk, which is
/// legal and not an error.
#[derive(Debug, Clone)]
pub struct ColumnRef {
    pub name: String,
    pub table: Option<TableRef>,
}

impl View for ColumnRef {
    type V = ColumnView;

    open spec fn view(&self) -> ColumnView {
        ColumnView {
            name: self.name@,
            table: match self.table {
                Some(t) => Some(t@),
                None => None,
            },
        }
    }
}

impl ColumnRef {
    pub fn new(name: String, table: Option<TableRef>) -> (r: ColumnRef)
        ensures
            r@ == (ColumnView { name: name@, table: match table { Some(t) => Some(t@), None => None } }),
    {
        ColumnRef { name, table }
    }
}

impl PartialEq for ColumnRef {
    fn eq(&self, other: &ColumnRef) -> (r: bool)
        ensures
            r == (self@ == other@),
    {
        let table_eq = match (&self.table, &other.table) {
            (None, None) => true,
            (Some(a), Some(b)) => a == b,
            _ => false,
        };
        let r = table_eq && self.name == other.name;
        proof {
            if r {
                assert(self@ =~= other@);
            }
        }
        r
    }
}

impl vstd::std_specs::cmp::PartialEqSpecImpl for ColumnRef {
    open spec fn obeys_eq_spec() -> bool {
        true
    }

    open spec fn eq_spec(&self, other: &ColumnRef) -> bool {
        self@ == other@
    }
}

/// The mathematical value of a [`Descendant`].
#[verifier::ext_equal]
pub ghost enum DescendantView {
    Named(Seq<char>),
    Unnamed,
}

/// The key of the column-ancestry map: the output column whose ancestors are
/// being recorded.  A projection expression with no resolvable name (neither
/// an identifier nor an aliased expression) is keyed under the anonymous
/// marker rather than dropped.
#[derive(Debug, Clone)]
pub enum Descendant {
    Named(String),
    Unnamed,
}

impl View for Descendant {
    type V = DescendantView;

    open spec fn view(&self) -> DescendantView {
        match self {
            Descendant::Named(s) => DescendantView::Named(s@),
            Descendant::Unnamed => DescendantView::Unnamed,
        }
    }
}

impl PartialEq for Descendant {
    fn eq(&self, other: &Descendant) -> (r: bool)
        ensures
            r == (self@ == other@),
    {
        match (self, other) {
            (Descendant::Named(a), Descendant::Named(b)) => *a == *b,
            (Descendant::Unnamed, Descendant::Unnamed) => true,
            _ => false,
        }
    }
}

impl vstd::std_specs::cmp::PartialEqSpecImpl for Descendant {
    open spec fn obeys_eq_spec() -> bool {
        true
    }

    open spec fn eq_spec(&self, other: &Descendant) -> bool {
        self@ == other@
    }
}

} // verus!
