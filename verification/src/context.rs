//! The traversal context: the single-pass accumulator of discovered inputs,
//! outputs, aliases, and column-ancestry edges, plus the two scope registers
//! used while descending into expressions.
//!
//! The mathematical value of a context is a [`CtxView`]: sets of normalized
//! table references, a set of introduced names, and a map from each
//! descendant column to the ordered sequence of its ancestors.  Every
//! mutator states exactly how it transforms the view.

use vstd::prelude::*;
use crate::meta::{ColumnRef, ColumnView, Descendant, DescendantView, Dialect, ObjectName, TableRef, TableView, normalize, opt_str_view};

verus! {

/// The views of a sequence of viewable values.
pub open spec fn view_seq<T: View>(s: Seq<T>) -> Seq<T::V> {
    s.map_values(|t: T| t@)
}

/// The set of views of a sequence of viewable values.
pub open spec fn view_set<T: View>(s: Seq<T>) -> Set<T::V> {
    view_seq(s).to_set()
}

/// Some element of the sequence has the given view.
pub open spec fn seq_has_view<T: View>(s: Seq<T>, x: T::V) -> bool {
    exists|i: int| 0 <= i < s.len() && s[i]@ == x
}

/// No two elements of the sequence share a view.
pub open spec fn distinct_views<T: View>(s: Seq<T>) -> bool {
    forall|i: int, j: int| 0 <= i < j < s.len() ==> s[i]@ != s[j]@
}

proof fn lemma_view_set_contains<T: View>(s: Seq<T>, x: T::V)
    ensures
        view_set(s).contains(x) <==> seq_has_view(s, x),
{
    if seq_has_view(s, x) {
        let i = choose|i: int| 0 <= i < s.len() && s[i]@ == x;
        assert(view_seq(s)[i] == x);
        assert(view_seq(s).contains(x));
    }
    if view_set(s).contains(x) {
        assert(view_seq(s).contains(x));
        let i = choose|i: int| 0 <= i < view_seq(s).len() && view_seq(s)[i] == x;
        assert(s[i]@ == x);
    }
}

proof fn lemma_view_set_push<T: View>(s: Seq<T>, t: T)
    ensures
        view_set(s.push(t)) =~= view_set(s).insert(t@),
{
    assert forall|x: T::V| view_set(s.push(t)).contains(x) implies view_set(s).insert(t@).contains(x) by {
        lemma_view_set_contains(s.push(t), x);
        let i = choose|i: int| 0 <= i < s.push(t).len() && s.push(t)[i]@ == x;
        if i < s.len() {
            assert(s[i]@ == x);
            lemma_view_set_contains(s, x);
        } else {
            assert(s.push(t)[i] == t);
        }
    }
    assert forall|x: T::V| view_set(s).insert(t@).contains(x) implies view_set(s.push(t)).contains(x) by {
        if x == t@ {
            assert(s.push(t)[s.len() as int]@ == x);
        } else {
            lemma_view_set_contains(s, x);
            let i = choose|i: int| 0 <= i < s.len() && s[i]@ == x;
            assert(s.push(t)[i]@ == x);
        }
        lemma_view_set_contains(s.push(t), x);
    }
}

/// One binding of the column-ancestry map: a descendant column and the
/// ordered ancestors discovered for it so far.
#[derive(Debug)]
pub struct LineageEntry {
    pub descendant: Descendant,
    pub ancestors: Vec<ColumnRef>,
}

/// The ancestor sequence of one entry, as views.
pub open spec fn entry_views(e: LineageEntry) -> Seq<ColumnView> {
    view_seq(e.ancestors@)
}

/// The association list of entries read as a map from descendant to
/// ancestors.
pub open spec fn lineage_map(s: Seq<LineageEntry>) -> Map<DescendantView, Seq<ColumnView>>
    decreases s.len(),
{
    if s.len() == 0 {
        Map::empty()
    } else {
        lineage_map(s.drop_last()).insert(s.last().descendant@, entry_views(s.last()))
    }
}

/// No two entries share a descendant.
pub open spec fn distinct_descendants(s: Seq<LineageEntry>) -> bool {
    forall|i: int, j: int| 0 <= i < j < s.len() ==> s[i].descendant@ != s[j].descendant@
}

proof fn lemma_lineage_map_dom(s: Seq<LineageEntry>, d: DescendantView)
    ensures
        lineage_map(s).contains_key(d) <==> (exists|i: int| 0 <= i < s.len() && s[i].descendant@ == d),
    decreases s.len(),
{
    if s.len() > 0 {
        let rest = s.drop_last();
        lemma_lineage_map_dom(rest, d);
        if s.last().descendant@ == d {
            assert(s[s.len() - 1].descendant@ == d);
        } else {
            if exists|i: int| 0 <= i < s.len() && s[i].descendant@ == d {
                let i = choose|i: int| 0 <= i < s.len() && s[i].descendant@ == d;
                assert(rest[i].descendant@ == d);
            }
            if exists|i: int| 0 <= i < rest.len() && rest[i].descendant@ == d {
                let i = choose|i: int| 0 <= i < rest.len() && rest[i].descendant@ == d;
                assert(s[i].descendant@ == d);
            }
        }
    }
}

proof fn lemma_lineage_map_at(s: Seq<LineageEntry>, i: int)
    requires
        distinct_descendants(s),
        0 <= i < s.len(),
    ensures
        lineage_map(s).contains_key(s[i].descendant@),
        lineage_map(s)[s[i].descendant@] == entry_views(s[i]),
    decreases s.len(),
{
    if i < s.len() - 1 {
        let rest = s.drop_last();
        lemma_lineage_map_at(rest, i);
        assert(s[i].descendant@ != s.last().descendant@);
    }
}

proof fn lemma_lineage_map_update(s: Seq<LineageEntry>, i: int, e: LineageEntry)
    requires
        distinct_descendants(s),
        0 <= i < s.len(),
        e.descendant@ == s[i].descendant@,
    ensures
        lineage_map(s.update(i, e)) =~= lineage_map(s).insert(e.descendant@, entry_views(e)),
    decreases s.len(),
{
    let u = s.update(i, e);
    if i == s.len() - 1 {
        assert(u.drop_last() =~= s.drop_last());
        assert(u.last() == e);
    } else {
        let rest = s.drop_last();
        assert(u.drop_last() =~= rest.update(i, e));
        assert(u.last() == s.last());
        lemma_lineage_map_update(rest, i, e);
        assert(rest[i] == s[i]);
        assert(s[i].descendant@ != s.last().descendant@);
        assert(lineage_map(u) =~= lineage_map(rest).insert(e.descendant@, entry_views(e)).insert(
            s.last().descendant@,
            entry_views(s.last()),
        ));
    }
}

/// The mathematical value of a [`Context`].
#[verifier::ext_equal]
pub ghost struct CtxView {
    pub inputs: Set<TableView>,
    pub outputs: Set<TableView>,
    pub aliases: Set<Seq<char>>,
    pub lineage: Map<DescendantView, Seq<ColumnView>>,
    pub table_scope: Option<TableView>,
    pub column_scope: Option<DescendantView>,
    pub dialect: Dialect,
    pub default_schema: Option<Seq<char>>,
}

impl CtxView {
    /// The empty context for the given configuration.
    pub open spec fn init(dialect: Dialect, default_schema: Option<Seq<char>>) -> CtxView {
        CtxView {
            inputs: Set::empty(),
            outputs: Set::empty(),
            aliases: Set::empty(),
            lineage: Map::empty(),
            table_scope: None,
            column_scope: None,
            dialect,
            default_schema,
        }
    }

    /// The normalized table reference that a raw name takes under this
    /// context's configuration.
    pub open spec fn table_of(self, name: Seq<Seq<char>>) -> TableView {
        normalize(name, self.dialect, self.default_schema)
    }

    pub open spec fn with_input(self, t: TableView) -> CtxView {
        CtxView { inputs: self.inputs.insert(t), ..self }
    }

    pub open spec fn with_output(self, t: TableView) -> CtxView {
        CtxView { outputs: self.outputs.insert(t), ..self }
    }

    pub open spec fn with_alias(self, a: Seq<char>) -> CtxView {
        CtxView { aliases: self.aliases.insert(a), ..self }
    }

    /// Appends ancestors for a descendant: what was already recorded for it
    /// is kept, never replaced.
    pub open spec fn with_ancestors(self, d: DescendantView, anc: Seq<ColumnView>) -> CtxView {
        let prior = if self.lineage.contains_key(d) {
            self.lineage[d]
        } else {
            Seq::<ColumnView>::empty()
        };
        CtxView { lineage: self.lineage.insert(d, prior + anc), ..self }
    }

    pub open spec fn with_table_scope(self, t: Option<TableView>) -> CtxView {
        CtxView { table_scope: t, ..self }
    }

    pub open spec fn with_column_scope(self, d: Option<DescendantView>) -> CtxView {
        CtxView { column_scope: d, ..self }
    }
}

/// The traversal context.  Created empty per top-level statement, mutated
/// exclusively by the dispatch engine during the walk, and read by the
/// caller once the walk returns successfully.
#[derive(Debug)]
pub struct Context {
    inputs: Vec<TableRef>,
    outputs: Vec<TableRef>,
    aliases: Vec<String>,
    column_lineage: Vec<LineageEntry>,
    table_scope: Option<TableRef>,
    column_scope: Option<Descendant>,
    dialect: Dialect,
    default_schema: Option<String>,
}

/// The view of an optional table reference.
pub open spec fn opt_table_view(o: Option<TableRef>) -> Option<TableView> {
    match o {
        Some(t) => Some(t@),
        None => None,
    }
}

/// The view of an optional descendant marker.
pub open spec fn opt_desc_view(o: Option<Descendant>) -> Option<DescendantView> {
    match o {
        Some(d) => Some(d@),
        None => None,
    }
}

impl View for Context {
    type V = CtxView;

    closed spec fn view(&self) -> CtxView {
        CtxView {
            inputs: view_set(self.inputs@),
            outputs: view_set(self.outputs@),
            aliases: view_set(self.aliases@),
            lineage: lineage_map(self.column_lineage@),
            table_scope: opt_table_view(self.table_scope),
            column_scope: opt_desc_view(self.column_scope),
            dialect: self.dialect,
            default_schema: opt_str_view(self.default_schema),
        }
    }
}

impl Context {
    /// The representation keeps each set as a duplicate-free vector and the
    /// ancestry map as an association list with pairwise distinct keys.
    pub closed spec fn wf(&self) -> bool {
        &&& distinct_views(self.inputs@)
        &&& distinct_views(self.outputs@)
        &&& distinct_views(self.aliases@)
        &&& distinct_descendants(self.column_lineage@)
    }

    /// A fresh, empty context carrying the configuration used to normalize
    /// every table reference discovered during the walk.
    pub fn new(dialect: Dialect, default_schema: Option<String>) -> (c: Context)
        ensures
            c.wf(),
            c@ == CtxView::init(dialect, opt_str_view(default_schema)),
    {
        let c = Context {
            inputs: Vec::new(),
            outputs: Vec::new(),
            aliases: Vec::new(),
            column_lineage: Vec::new(),
            table_scope: None,
            column_scope: None,
            dialect,
            default_schema,
        };
        proof {
            assert(c@ =~= CtxView::init(dialect, opt_str_view(c.default_schema)));
        }
        c
    }

    pub fn dialect(&self) -> (d: Dialect)
        ensures
            d == self@.dialect,
    {
        self.dialect
    }

    pub fn default_schema(&self) -> (s: &Option<String>)
        ensures
            opt_str_view(*s) == self@.default_schema,
    {
        &self.default_schema
    }

    /// Records a table the statement reads from; idempotent.
    pub fn add_input(&mut self, name: &ObjectName)
        requires
            old(self).wf(),
        ensures
            final(self).wf(),
            final(self)@ == old(self)@.with_input(old(self)@.table_of(name@)),
    {
        let ghost pre = *self;
        let t = TableRef::new(name, self.dialect, &self.default_schema);
        if !contains_table(&self.inputs, &t) {
            proof {
                lemma_view_set_push(self.inputs@, t);
            }
            self.inputs.push(t);
            proof {
                assert(self@ =~= pre@.with_input(pre@.table_of(name@)));
            }
        } else {
            proof {
                lemma_view_set_contains(self.inputs@, t@);
                assert(view_set(self.inputs@).insert(t@) =~= view_set(self.inputs@));
                assert(self@ =~= pre@.with_input(pre@.table_of(name@)));
            }
        }
    }

    /// Records a table the statement writes to; idempotent.
    pub fn add_output(&mut self, name: &ObjectName)
        requires
            old(self).wf(),
        ensures
            final(self).wf(),
            final(self)@ == old(self)@.with_output(old(self)@.table_of(name@)),
    {
        let ghost pre = *self;
        let t = TableRef::new(name, self.dialect, &self.default_schema);
        if !contains_table(&self.outputs, &t) {
            proof {
                lemma_view_set_push(self.outputs@, t);
            }
            self.outputs.push(t);
            proof {
                assert(self@ =~= pre@.with_output(pre@.table_of(name@)));
            }
        } else {
            proof {
                lemma_view_set_contains(self.outputs@, t@);
                assert(view_set(self.outputs@).insert(t@) =~= view_set(self.outputs@));
                assert(self@ =~= pre@.with_output(pre@.table_of(name@)));
            }
        }
    }

    /// Records a name introduced as a CTE name, a derived-table alias, or an
    /// output-column alias; idempotent.
    pub fn add_alias(&mut self, name: String)
        requires
            old(self).wf(),
        ensures
            final(self).wf(),
            final(self)@ == old(self)@.with_alias(name@),
    {
        let ghost pre = *self;
        if !contains_string(&self.aliases, &name) {
            proof {
                lemma_view_set_push(self.aliases@, name);
            }
            self.aliases.push(name);
            proof {
                assert(self@ =~= pre@.with_alias(name@));
            }
        } else {
            proof {
                lemma_view_set_contains(self.aliases@, name@);
                assert(view_set(self.aliases@).insert(name@) =~= view_set(self.aliases@));
                assert(self@ =~= pre@.with_alias(name@));
            }
        }
    }

    /// Appends ancestors for the given descendant: ancestors already
    /// recorded for it accumulate, they are never overwritten.
    pub fn add_column_ancestors(&mut self, descendant: Descendant, ancestors: Vec<ColumnRef>)
        requires
            old(self).wf(),
        ensures
            final(self).wf(),
            final(self)@ == old(self)@.with_ancestors(descendant@, view_seq(ancestors@)),
    {
        let ghost pre = *self;
        let mut i: usize = 0;
        let n = self.column_lineage.len();
        while i < n
            invariant
                *self == pre,
                pre == *old(self),
                pre.wf(),
                n == self.column_lineage@.len(),
                i <= n,
                forall|j: int| 0 <= j < i ==> self.column_lineage@[j].descendant@ != descendant@,
            decreases n - i,
        {
            if self.column_lineage[i].descendant == descendant {
                let mut anc = ancestors;
                let entry = &mut self.column_lineage[i];
                entry.ancestors.append(&mut anc);
                proof {
                    let s = pre.column_lineage@;
                    let e = self.column_lineage@[i as int];
                    assert(pre.wf());
                    assert(distinct_descendants(s));
                    assert(self.column_lineage@ =~= s.update(i as int, e));
                    assert(e.descendant@ == descendant@);
                    assert(entry_views(e) =~= entry_views(s[i as int]) + view_seq(ancestors@));
                    lemma_lineage_map_update(s, i as int, e);
                    lemma_lineage_map_at(s, i as int);
                    assert forall|a: int, b: int| 0 <= a < b < self.column_lineage@.len()
                        implies self.column_lineage@[a].descendant@ != self.column_lineage@[b].descendant@ by {
                        assert(s[a].descendant@ != s[b].descendant@);
                    }
                    assert(self@ =~= pre@.with_ancestors(descendant@, view_seq(ancestors@)));
                }
                return;
            }
            i += 1;
        }
        self.column_lineage.push(LineageEntry { descendant, ancestors });
        proof {
            let s = pre.column_lineage@;
            let e = self.column_lineage@.last();
            assert(self.column_lineage@.drop_last() =~= s);
            lemma_lineage_map_dom(s, e.descendant@);
            assert(!lineage_map(s).contains_key(e.descendant@));
            assert(self@ =~= pre@.with_ancestors(e.descendant@, view_seq(e.ancestors@)));
        }
    }

    /// Overwrites the table currently in scope.
    pub fn set_table_scope(&mut self, t: Option<TableRef>)
        requires
            old(self).wf(),
        ensures
            final(self).wf(),
            final(self)@ == old(self)@.with_table_scope(opt_table_view(t)),
    {
        let ghost pre = *self;
        self.table_scope = t;
        proof {
            assert(self@ =~= pre@.with_table_scope(opt_table_view(self.table_scope)));
        }
    }

    /// Overwrites the output column currently being resolved; its name (the
    /// owning table is not part of the key) becomes the active descendant.
    pub fn set_column_scope(&mut self, c: Option<ColumnRef>)
        requires
            old(self).wf(),
        ensures
            final(self).wf(),
            final(self)@ == old(self)@.with_column_scope(
                match c {
                    Some(cr) => Some(DescendantView::Named(cr@.name)),
                    None => None,
                },
            ),
    {
        let ghost pre = *self;
        let d = match c {
            Some(cr) => Some(Descendant::Named(cr.name)),
            None => None,
        };
        self.column_scope = d;
        proof {
            assert(self@ =~= pre@.with_column_scope(opt_desc_view(self.column_scope)));
        }
    }

    /// Marks that the active output column has no resolvable name: ancestors
    /// discovered while this is active are keyed under the anonymous marker
    /// rather than dropped.
    pub fn set_unnamed_column_scope(&mut self)
        requires
            old(self).wf(),
        ensures
            final(self).wf(),
            final(self)@ == old(self)@.with_column_scope(Some(DescendantView::Unnamed)),
    {
        let ghost pre = *self;
        self.column_scope = Some(Descendant::Unnamed);
        proof {
            assert(self@ =~= pre@.with_column_scope(Some(DescendantView::Unnamed)));
        }
    }

    /// Restores a previously saved descendant marker as the active scope.
    pub fn restore_column_scope(&mut self, d: Option<Descendant>)
        requires
            old(self).wf(),
        ensures
            final(self).wf(),
            final(self)@ == old(self)@.with_column_scope(opt_desc_view(d)),
    {
        let ghost pre = *self;
        self.column_scope = d;
        proof {
            assert(self@ =~= pre@.with_column_scope(opt_desc_view(self.column_scope)));
        }
    }

    /// The table currently in scope, if any.
    pub fn current_table_scope(&self) -> (r: Option<&TableRef>)
        ensures
            match r {
                Some(t) => self@.table_scope == Some(t@),
                None => self@.table_scope is None,
            },
    {
        self.table_scope.as_ref()
    }

    /// The descendant marker currently in scope, if any.
    pub fn current_column_scope(&self) -> (r: Option<&Descendant>)
        ensures
            match r {
                Some(d) => self@.column_scope == Some(d@),
                None => self@.column_scope is None,
            },
    {
        self.column_scope.as_ref()
    }

    /// A copy of the table currently in scope.
    pub fn table_scope_copy(&self) -> (r: Option<TableRef>)
        ensures
            opt_table_view(r) == self@.table_scope,
    {
        match &self.table_scope {
            Some(t) => {
                let schema = match &t.schema {
                    Some(s) => Some(s.clone()),
                    None => None,
                };
                Some(TableRef { schema, name: t.name.clone() })
            },
            None => None,
        }
    }

    /// A copy of the descendant marker currently in scope.
    pub fn column_scope_copy(&self) -> (r: Option<Descendant>)
        ensures
            opt_desc_view(r) == self@.column_scope,
    {
        match &self.column_scope {
            Some(Descendant::Named(s)) => Some(Descendant::Named(s.clone())),
            Some(Descendant::Unnamed) => Some(Descendant::Unnamed),
            None => None,
        }
    }

    /// Whether the given table is among the discovered inputs.
    pub fn contains_input(&self, t: &TableRef) -> (r: bool)
        ensures
            r == self@.inputs.contains(t@),
    {
        proof {
            lemma_view_set_contains(self.inputs@, t@);
        }
        contains_table(&self.inputs, t)
    }

    /// Whether the given table is among the discovered outputs.
    pub fn contains_output(&self, t: &TableRef) -> (r: bool)
        ensures
            r == self@.outputs.contains(t@),
    {
        proof {
            lemma_view_set_contains(self.outputs@, t@);
        }
        contains_table(&self.outputs, t)
    }

    /// Whether the given name was introduced as an alias.
    pub fn contains_alias(&self, name: &String) -> (r: bool)
        ensures
            r == self@.aliases.contains(name@),
    {
        proof {
            lemma_view_set_contains(self.aliases@, name@);
        }
        contains_string(&self.aliases, name)
    }

    /// How many distinct input tables were discovered.
    pub fn input_len(&self) -> (r: usize)
        requires
            self.wf(),
        ensures
            r == self@.inputs.len(),
    {
        proof {
            lemma_view_set_len(self.inputs@);
        }
        self.inputs.len()
    }

    /// How many distinct output tables were discovered.
    pub fn output_len(&self) -> (r: usize)
        requires
            self.wf(),
        ensures
            r == self@.outputs.len(),
    {
        proof {
            lemma_view_set_len(self.outputs@);
        }
        self.outputs.len()
    }

    /// How many descendant columns have recorded ancestors.
    pub fn lineage_len(&self) -> (r: usize)
        requires
            self.wf(),
        ensures
            r == self@.lineage.dom().len(),
    {
        proof {
            lemma_lineage_dom_len(self.column_lineage@);
        }
        self.column_lineage.len()
    }

    /// The discovered input tables, duplicate-free, in discovery order.
    pub fn inputs(&self) -> (r: &Vec<TableRef>)
        ensures
            view_set(r@) == self@.inputs,
    {
        &self.inputs
    }

    /// The discovered output tables, duplicate-free, in discovery order.
    pub fn outputs(&self) -> (r: &Vec<TableRef>)
        ensures
            view_set(r@) == self@.outputs,
    {
        &self.outputs
    }

    /// The introduced names, duplicate-free, in discovery order.
    pub fn aliases(&self) -> (r: &Vec<String>)
        ensures
            view_set(r@) == self@.aliases,
    {
        &self.aliases
    }

    /// The column-ancestry bindings, one per descendant, in discovery order.
    pub fn lineage_entries(&self) -> (r: &Vec<LineageEntry>)
        ensures
            lineage_map(r@) == self@.lineage,
    {
        &self.column_lineage
    }

    /// The ordered ancestors recorded for a descendant, if any.
    pub fn ancestors_of(&self, d: &Descendant) -> (r: Option<&Vec<ColumnRef>>)
        requires
            self.wf(),
        ensures
            match r {
                Some(v) => self@.lineage.contains_key(d@) && view_seq(v@) == self@.lineage[d@],
                None => !self@.lineage.contains_key(d@),
            },
    {
        let n = self.column_lineage.len();
        let mut i: usize = 0;
        while i < n
            invariant
                self.wf(),
                n == self.column_lineage@.len(),
                i <= n,
                forall|j: int| 0 <= j < i ==> self.column_lineage@[j].descendant@ != d@,
            decreases n - i,
        {
            if self.column_lineage[i].descendant == *d {
                proof {
                    lemma_lineage_map_at(self.column_lineage@, i as int);
                }
                return Some(&self.column_lineage[i].ancestors);
            }
            i += 1;
        }
        proof {
            lemma_lineage_map_dom(self.column_lineage@, d@);
        }
        None
    }
}

fn contains_table(v: &Vec<TableRef>, t: &TableRef) -> (r: bool)
    ensures
        r == seq_has_view(v@, t@),
{
    let n = v.len();
    let mut i: usize = 0;
    while i < n
        invariant
            n == v@.len(),
            i <= n,
            forall|j: int| 0 <= j < i ==> v@[j]@ != t@,
        decreases n - i,
    {
        if v[i] == *t {
            return true;
        }
        i += 1;
    }
    false
}

fn contains_string(v: &Vec<String>, t: &String) -> (r: bool)
    ensures
        r == seq_has_view(v@, t@),
{
    let n = v.len();
    let mut i: usize = 0;
    while i < n
        invariant
            n == v@.len(),
            i <= n,
            forall|j: int| 0 <= j < i ==> v@[j]@ != t@,
        decreases n - i,
    {
        if v[i] == *t {
            return true;
        }
        i += 1;
    }
    false
}

proof fn lemma_view_set_len<T: View>(s: Seq<T>)
    requires
        distinct_views(s),
    ensures
        view_set(s).len() == s.len(),
{
    let ms = view_seq(s);
    assert(ms.no_duplicates());
    ms.unique_seq_to_set();
}

proof fn lemma_lineage_dom_len(s: Seq<LineageEntry>)
    requires
        distinct_descendants(s),
    ensures
        lineage_map(s).dom().finite(),
        lineage_map(s).dom().len() == s.len(),
    decreases s.len(),
{
    broadcast use vstd::set::group_set_axioms;

    if s.len() == 0 {
        assert(lineage_map(s).dom() =~= Set::<DescendantView>::empty());
    } else {
        let rest = s.drop_last();
        lemma_lineage_dom_len(rest);
        lemma_lineage_map_dom(rest, s.last().descendant@);
        assert(!lineage_map(rest).contains_key(s.last().descendant@));
        assert(lineage_map(s).dom() =~= lineage_map(rest).dom().insert(s.last().descendant@));
    }
}

} // verus!
