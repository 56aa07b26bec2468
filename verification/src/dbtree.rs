//! The schema outline shown in the sidebar: databases, optional schema
//! groups, and tables, with per-branch collapse flags, a single selected
//! visual row, and substring filtering.

use vstd::prelude::*;
use crate::strutil;

verus! {

/// Navigation requests the tree understands.
#[derive(Debug, Clone, Copy, PartialEq, Eq, Structural)]
pub enum MoveSelection {
    Up,
    Down,
    MultipleUp,
    MultipleDown,
    Left,
    Right,
    Top,
    End,
}

pub ghost struct TableV {
    pub name: Seq<char>,
    pub create_time: Option<Seq<char>>,
    pub update_time: Option<Seq<char>>,
    pub engine: Option<Seq<char>>,
    pub schema: Option<Seq<char>>,
    pub database: Option<Seq<char>>,
}

/// One table of a database.  Timestamps are carried as display text; the
/// engine never computes with them.
#[derive(Debug)]
pub struct Table {
    pub name: String,
    pub create_time: Option<String>,
    pub update_time: Option<String>,
    pub engine: Option<String>,
    pub schema: Option<String>,
    pub database: Option<String>,
}

pub open spec fn view_opt(o: Option<String>) -> Option<Seq<char>> {
    match o {
        Some(s) => Some(s@),
        None => None,
    }
}

impl View for Table {
    type V = TableV;

    open spec fn view(&self) -> TableV {
        TableV {
            name: self.name@,
            create_time: view_opt(self.create_time),
            update_time: view_opt(self.update_time),
            engine: view_opt(self.engine),
            schema: view_opt(self.schema),
            database: view_opt(self.database),
        }
    }
}

fn clone_opt_string(o: &Option<String>) -> (r: Option<String>)
    ensures
        view_opt(r) == view_opt(*o),
{
    match o {
        Some(s) => Some(s.clone()),
        None => None,
    }
}

impl Clone for Table {
    fn clone(&self) -> (r: Table)
        ensures
            r@ == self@,
    {
        Table {
            name: self.name.clone(),
            create_time: clone_opt_string(&self.create_time),
            update_time: clone_opt_string(&self.update_time),
            engine: clone_opt_string(&self.engine),
            schema: clone_opt_string(&self.schema),
            database: clone_opt_string(&self.database),
        }
    }
}

impl Table {
    /// A table with just a name, as the lightweight backends report them.
    pub fn named(name: String) -> (r: Table)
        ensures
            r@.name == name@,
            r@.create_time is None,
            r@.update_time is None,
            r@.engine is None,
            r@.schema is None,
            r@.database is None,
    {
        Table {
            name,
            create_time: None,
            update_time: None,
            engine: None,
            schema: None,
            database: None,
        }
    }
}

pub ghost struct SchemaV {
    pub name: Seq<char>,
    pub tables: Seq<TableV>,
}

/// A named group of tables, used by backends with schema namespaces.
#[derive(Debug)]
pub struct Schema {
    pub name: String,
    pub tables: Vec<Table>,
}

impl View for Schema {
    type V = SchemaV;

    open spec fn view(&self) -> SchemaV {
        SchemaV { name: self.name@, tables: self.tables@.map_values(|t: Table| t@) }
    }
}

fn clone_tables(ts: &Vec<Table>) -> (r: Vec<Table>)
    ensures
        r@.map_values(|t: Table| t@) == ts@.map_values(|t: Table| t@),
{
    let mut r: Vec<Table> = Vec::new();
    let mut i: usize = 0;
    while i < ts.len()
        invariant
            i <= ts@.len(),
            r@.len() == i,
            forall|k: int| 0 <= k < i ==> (#[trigger] r@[k])@ == ts@[k]@,
        decreases ts@.len() - i,
    {
        r.push(ts[i].clone());
        i = i + 1;
    }
    assert(r@.map_values(|t: Table| t@) =~= ts@.map_values(|t: Table| t@));
    r
}

impl Clone for Schema {
    fn clone(&self) -> (r: Schema)
        ensures
            r@ == self@,
    {
        Schema { name: self.name.clone(), tables: clone_tables(&self.tables) }
    }
}

pub ghost enum ChildV {
    Table(TableV),
    Schema(SchemaV),
}

/// A child of a database node.
#[derive(Debug)]
pub enum Child {
    Table(Table),
    Schema(Schema),
}

impl View for Child {
    type V = ChildV;

    open spec fn view(&self) -> ChildV {
        match self {
            Child::Table(t) => ChildV::Table(t@),
            Child::Schema(s) => ChildV::Schema(s@),
        }
    }
}

impl Clone for Child {
    fn clone(&self) -> (r: Child)
        ensures
            r@ == self@,
    {
        match self {
            Child::Table(t) => Child::Table(t.clone()),
            Child::Schema(s) => Child::Schema(s.clone()),
        }
    }
}

pub ghost struct DatabaseV {
    pub name: Seq<char>,
    pub children: Seq<ChildV>,
}

/// A database with its ordered children.
#[derive(Debug)]
pub struct Database {
    pub name: String,
    pub children: Vec<Child>,
}

impl View for Database {
    type V = DatabaseV;

    open spec fn view(&self) -> DatabaseV {
        DatabaseV { name: self.name@, children: self.children@.map_values(|c: Child| c@) }
    }
}

fn clone_children(cs: &Vec<Child>) -> (r: Vec<Child>)
    ensures
        r@.map_values(|c: Child| c@) == cs@.map_values(|c: Child| c@),
{
    let mut r: Vec<Child> = Vec::new();
    let mut i: usize = 0;
    while i < cs.len()
        invariant
            i <= cs@.len(),
            r@.len() == i,
            forall|k: int| 0 <= k < i ==> (#[trigger] r@[k])@ == cs@[k]@,
        decreases cs@.len() - i,
    {
        r.push(cs[i].clone());
        i = i + 1;
    }
    assert(r@.map_values(|c: Child| c@) =~= cs@.map_values(|c: Child| c@));
    r
}

impl Clone for Database {
    fn clone(&self) -> (r: Database)
        ensures
            r@ == self@,
    {
        Database { name: self.name.clone(), children: clone_children(&self.children) }
    }
}

impl Database {
    pub fn new(name: String, children: Vec<Child>) -> (r: Database)
        ensures
            r@.name == name@,
            r@.children == children@.map_values(|c: Child| c@),
    {
        Database { name, children }
    }
}

/// What a visual row of the tree points at.
#[derive(Debug, Clone, Copy, PartialEq, Eq, Structural)]
pub enum RowTarget {
    /// The header row of a database.
    Db { db: usize },
    /// The header row of a schema group.
    Schema { db: usize, child: usize },
    /// A table directly under a database.
    Table { db: usize, child: usize },
    /// A table inside a schema group.
    SchemaTable { db: usize, child: usize, table: usize },
}

pub ghost struct DbNodeV {
    pub database: DatabaseV,
    pub collapsed: bool,
    pub child_collapsed: Seq<bool>,
}

/// A database inside the tree, with its collapse flags.
pub struct DbNode {
    pub database: Database,
    pub collapsed: bool,
    pub child_collapsed: Vec<bool>,
}

impl View for DbNode {
    type V = DbNodeV;

    open spec fn view(&self) -> DbNodeV {
        DbNodeV {
            database: self.database@,
            collapsed: self.collapsed,
            child_collapsed: self.child_collapsed@,
        }
    }
}

pub ghost struct DatabaseTreeV {
    pub nodes: Seq<DbNodeV>,
    pub selection: usize,
}

/// The sidebar outline: nodes plus one selected visual row.
pub struct DatabaseTree {
    pub nodes: Vec<DbNode>,
    pub selection: usize,
}

impl View for DatabaseTree {
    type V = DatabaseTreeV;

    open spec fn view(&self) -> DatabaseTreeV {
        DatabaseTreeV {
            nodes: self.nodes@.map_values(|n: DbNode| n@),
            selection: self.selection,
        }
    }
}

/// Rows contributed by one child of database `db`.
pub open spec fn child_rows(db: usize, ci: usize, c: ChildV, coll: bool) -> Seq<RowTarget> {
    match c {
        ChildV::Table(_) => seq![RowTarget::Table { db, child: ci }],
        ChildV::Schema(s) => seq![RowTarget::Schema { db, child: ci }] + if coll {
            Seq::empty()
        } else {
            Seq::new(s.tables.len(), |i: int| RowTarget::SchemaTable { db, child: ci, table: i as usize })
        },
    }
}

pub open spec fn node_children_rows(db: usize, n: DbNodeV, upto: int) -> Seq<RowTarget>
    decreases upto,
{
    if upto <= 0 {
        Seq::empty()
    } else {
        node_children_rows(db, n, upto - 1) + child_rows(
            db,
            (upto - 1) as usize,
            n.database.children[upto - 1],
            n.child_collapsed[upto - 1],
        )
    }
}

/// Rows contributed by one database node.
pub open spec fn node_rows(db: usize, n: DbNodeV) -> Seq<RowTarget> {
    seq![RowTarget::Db { db }] + if n.collapsed {
        Seq::empty()
    } else {
        node_children_rows(db, n, n.database.children.len() as int)
    }
}

pub open spec fn tree_rows_upto(nodes: Seq<DbNodeV>, upto: int) -> Seq<RowTarget>
    decreases upto,
{
    if upto <= 0 {
        Seq::empty()
    } else {
        tree_rows_upto(nodes, upto - 1) + node_rows((upto - 1) as usize, nodes[upto - 1])
    }
}

/// All visible rows of the tree, in display order.
pub open spec fn tree_rows(t: DatabaseTreeV) -> Seq<RowTarget> {
    tree_rows_upto(t.nodes, t.nodes.len() as int)
}

/// Collapse flags line up with children.
pub open spec fn nodes_wf(nodes: Seq<DbNodeV>) -> bool {
    forall|i: int|
        0 <= i < nodes.len() ==> (#[trigger] nodes[i]).child_collapsed.len()
            == nodes[i].database.children.len()
}

/// Collapse flags line up with children, and the selection is a valid row.
pub open spec fn tree_wf(t: DatabaseTreeV) -> bool {
    &&& nodes_wf(t.nodes)
    &&& if tree_rows(t).len() == 0 {
        t.selection == 0
    } else {
        t.selection < tree_rows(t).len()
    }
}

/// The indices inside a row target stay inside the tree, and every row of a
/// collapsed branch is hidden.
pub open spec fn row_valid(nodes: Seq<DbNodeV>, r: RowTarget) -> bool {
    match r {
        RowTarget::Db { db } => db < nodes.len(),
        RowTarget::Schema { db, child } => {
            &&& db < nodes.len()
            &&& !nodes[db as int].collapsed
            &&& child < nodes[db as int].database.children.len()
            &&& nodes[db as int].database.children[child as int] is Schema
        },
        RowTarget::Table { db, child } => {
            &&& db < nodes.len()
            &&& !nodes[db as int].collapsed
            &&& child < nodes[db as int].database.children.len()
            &&& nodes[db as int].database.children[child as int] is Table
        },
        RowTarget::SchemaTable { db, child, table } => {
            &&& db < nodes.len()
            &&& !nodes[db as int].collapsed
            &&& child < nodes[db as int].database.children.len()
            &&& nodes[db as int].database.children[child as int] matches ChildV::Schema(s)
                && !nodes[db as int].child_collapsed[child as int] && table < s.tables.len()
        },
    }
}

/// Lengths small enough that the `usize` indices inside row targets are
/// exact.  Holds of every tree built from real vectors.
pub open spec fn nodes_bounded(nodes: Seq<DbNodeV>) -> bool {
    &&& nodes.len() <= usize::MAX
    &&& forall|i: int|
        0 <= i < nodes.len() ==> (#[trigger] nodes[i]).database.children.len() <= usize::MAX
    &&& forall|i: int, c: int|
        0 <= i < nodes.len() && 0 <= c < nodes[i].database.children.len() ==> ((
        #[trigger] nodes[i].database.children[c]) matches ChildV::Schema(s) ==> s.tables.len()
            <= usize::MAX)
}

proof fn lemma_tree_bounded(t: &DatabaseTree)
    ensures
        nodes_bounded(t@.nodes),
{
    vstd::std_specs::vec::axiom_spec_len(&t.nodes);
    assert forall|i: int| 0 <= i < t@.nodes.len() implies (
    #[trigger] t@.nodes[i]).database.children.len() <= usize::MAX by {
        vstd::std_specs::vec::axiom_spec_len(&t.nodes@[i].database.children);
    }
    assert forall|i: int, c: int|
        0 <= i < t@.nodes.len() && 0 <= c < t@.nodes[i].database.children.len() implies ((
    #[trigger] t@.nodes[i].database.children[c]) matches ChildV::Schema(s) ==> s.tables.len()
        <= usize::MAX) by {
        match t.nodes@[i].database.children@[c] {
            Child::Schema(s) => {
                vstd::std_specs::vec::axiom_spec_len(&s.tables);
            },
            Child::Table(_) => {
            },
        }
    }
}

proof fn lemma_child_rows_valid(nodes: Seq<DbNodeV>, d: usize, u: int, i: int)
    requires
        nodes_wf(nodes),
        nodes_bounded(nodes),
        (d as int) < nodes.len(),
        !nodes[d as int].collapsed,
        0 <= u <= nodes[d as int].database.children.len(),
        0 <= i < node_children_rows(d, nodes[d as int], u).len(),
    ensures
        row_valid(nodes, node_children_rows(d, nodes[d as int], u)[i]),
    decreases u,
{
    let n = nodes[d as int];
    if u > 0 {
        let pre = node_children_rows(d, n, u - 1);
        if i < pre.len() {
            lemma_child_rows_valid(nodes, d, u - 1, i);
        } else {
            let ci = (u - 1) as usize;
            let cr = child_rows(d, ci, n.database.children[u - 1], n.child_collapsed[u - 1]);
            let k = i - pre.len();
            match n.database.children[u - 1] {
                ChildV::Table(_) => {
                    assert(cr[k] == RowTarget::Table { db: d, child: ci });
                },
                ChildV::Schema(s) => {
                    if k == 0 {
                        assert(cr[k] == RowTarget::Schema { db: d, child: ci });
                    } else {
                        assert(!n.child_collapsed[u - 1]);
                        assert(cr[k] == RowTarget::SchemaTable {
                            db: d,
                            child: ci,
                            table: (k - 1) as usize,
                        });
                    }
                },
            }
        }
    }
}

/// Every row the tree shows points back at an existing, uncollapsed branch.
pub proof fn lemma_rows_valid(nodes: Seq<DbNodeV>, u: int, i: int)
    requires
        nodes_wf(nodes),
        nodes_bounded(nodes),
        0 <= u <= nodes.len(),
        0 <= i < tree_rows_upto(nodes, u).len(),
    ensures
        row_valid(nodes, tree_rows_upto(nodes, u)[i]),
    decreases u,
{
    if u > 0 {
        let pre = tree_rows_upto(nodes, u - 1);
        if i < pre.len() {
            lemma_rows_valid(nodes, u - 1, i);
        } else {
            let d = (u - 1) as usize;
            let k = i - pre.len();
            let nr = node_rows(d, nodes[u - 1]);
            if k == 0 {
                assert(nr[0] == RowTarget::Db { db: d });
            } else {
                assert(!nodes[u - 1].collapsed);
                lemma_child_rows_valid(
                    nodes,
                    d,
                    nodes[u - 1].database.children.len() as int,
                    k - 1,
                );
            }
        }
    }
}

proof fn lemma_upto_index(nodes: Seq<DbNodeV>, u1: int, u2: int, i: int)
    requires
        0 <= u1 <= u2,
        0 <= i < tree_rows_upto(nodes, u1).len(),
    ensures
        tree_rows_upto(nodes, u1).len() <= tree_rows_upto(nodes, u2).len(),
        tree_rows_upto(nodes, u2)[i] == tree_rows_upto(nodes, u1)[i],
    decreases u2,
{
    if u2 > u1 {
        lemma_upto_index(nodes, u1, u2 - 1, i);
    }
}

/// Every database owns a header row.
pub proof fn lemma_db_row_exists(nodes: Seq<DbNodeV>, d: usize)
    requires
        (d as int) < nodes.len(),
        nodes.len() <= usize::MAX,
    ensures
        exists|i: int|
            0 <= i < tree_rows_upto(nodes, nodes.len() as int).len() && tree_rows_upto(
                nodes,
                nodes.len() as int,
            )[i] == (RowTarget::Db { db: d }),
{
    let j = tree_rows_upto(nodes, d as int).len() as int;
    assert(tree_rows_upto(nodes, d + 1)[j] == node_rows(d, nodes[d as int])[0]);
    assert(node_rows(d, nodes[d as int])[0] == RowTarget::Db { db: d });
    lemma_upto_index(nodes, d + 1, nodes.len() as int, j);
    assert(tree_rows_upto(nodes, nodes.len() as int)[j] == RowTarget::Db { db: d });
}

impl DatabaseTree {
    /// An empty outline.
    pub fn default() -> (r: DatabaseTree)
        ensures
            r@.nodes.len() == 0,
            r@.selection == 0,
            tree_wf(r@),
    {
        let r = DatabaseTree { nodes: Vec::new(), selection: 0 };
        proof {
            assert(tree_rows(r@) =~= Seq::empty());
        }
        r
    }

    /// Builds the outline for a database list; every branch starts collapsed
    /// and the selection is on the first row.
    pub fn new(databases: Vec<Database>) -> (r: DatabaseTree)
        ensures
            tree_wf(r@),
            r@.selection == 0,
            r@.nodes.len() == databases@.len(),
            forall|i: int|
                0 <= i < databases@.len() ==> (#[trigger] r@.nodes[i]).database == databases@[i]@
                    && r@.nodes[i].collapsed,
    {
        let mut nodes: Vec<DbNode> = Vec::new();
        let mut i: usize = 0;
        while i < databases.len()
            invariant
                i <= databases@.len(),
                nodes@.len() == i,
                forall|k: int|
                    0 <= k < i ==> (#[trigger] nodes@[k])@.database == databases@[k]@
                        && nodes@[k]@.collapsed && nodes@[k]@.child_collapsed.len()
                        == nodes@[k]@.database.children.len(),
            decreases databases@.len() - i,
        {
            let db = databases[i].clone();
            let mut flags: Vec<bool> = Vec::new();
            let nchildren = db.children.len();
            let mut j: usize = 0;
            while j < nchildren
                invariant
                    j <= nchildren,
                    flags@.len() == j,
                decreases nchildren - j,
            {
                flags.push(true);
                j = j + 1;
            }
            nodes.push(DbNode { database: db, collapsed: true, child_collapsed: flags });
            i = i + 1;
        }
        let r = DatabaseTree { nodes, selection: 0 };
        proof {
            if tree_rows(r@).len() != 0 {
            }
        }
        r
    }

    /// The databases held by the tree, in order.
    pub open spec fn spec_databases(t: DatabaseTreeV) -> Seq<DatabaseV> {
        t.nodes.map_values(|n: DbNodeV| n.database)
    }

    /// Computes the visible rows in display order.
    pub fn visible_rows(&self) -> (r: Vec<RowTarget>)
        requires
            tree_wf(self@),
        ensures
            r@ == tree_rows(self@),
    {
        let mut out: Vec<RowTarget> = Vec::new();
        let mut d: usize = 0;
        while d < self.nodes.len()
            invariant
                tree_wf(self@),
                d <= self@.nodes.len(),
                self@.nodes.len() == self.nodes@.len(),
                out@ == tree_rows_upto(self@.nodes, d as int),
            decreases self.nodes@.len() - d,
        {
            let ghost pre = out@;
            let ghost node = self@.nodes[d as int];
            out.push(RowTarget::Db { db: d });
            if !self.nodes[d].collapsed {
                let nchildren = self.nodes[d].database.children.len();
                let mut c: usize = 0;
                while c < nchildren
                    invariant
                        tree_wf(self@),
                        d < self@.nodes.len(),
                        self@.nodes.len() == self.nodes@.len(),
                        node == self@.nodes[d as int],
                        !node.collapsed,
                        nchildren == node.database.children.len(),
                        c <= nchildren,
                        out@ == pre + seq![RowTarget::Db { db: d }] + node_children_rows(
                            d,
                            node,
                            c as int,
                        ),
                    decreases nchildren - c,
                {
                    let ghost prec = out@;
                    match &self.nodes[d].database.children[c] {
                        Child::Table(_) => {
                            out.push(RowTarget::Table { db: d, child: c });
                            proof {
                                assert(out@ =~= prec + child_rows(
                                    d,
                                    c,
                                    node.database.children[c as int],
                                    node.child_collapsed[c as int],
                                ));
                            }
                        },
                        Child::Schema(s) => {
                            out.push(RowTarget::Schema { db: d, child: c });
                            if !self.nodes[d].child_collapsed[c] {
                                let ntables = s.tables.len();
                                let mut t: usize = 0;
                                while t < ntables
                                    invariant
                                        d < self@.nodes.len(),
                                        node == self@.nodes[d as int],
                                        c < node.database.children.len(),
                                        node.database.children[c as int] matches ChildV::Schema(sv)
                                            && ntables == sv.tables.len(),
                                        t <= ntables,
                                        out@ == prec + seq![RowTarget::Schema { db: d, child: c }]
                                            + Seq::new(
                                            t as nat,
                                            |i: int|
                                                RowTarget::SchemaTable {
                                                    db: d,
                                                    child: c,
                                                    table: i as usize,
                                                },
                                        ),
                                    decreases ntables - t,
                                {
                                    out.push(RowTarget::SchemaTable { db: d, child: c, table: t });
                                    t = t + 1;
                                    proof {
                                        assert(out@ =~= prec + seq![
                                            RowTarget::Schema { db: d, child: c },
                                        ] + Seq::new(
                                            t as nat,
                                            |i: int|
                                                RowTarget::SchemaTable {
                                                    db: d,
                                                    child: c,
                                                    table: i as usize,
                                                },
                                        ));
                                    }
                                }
                                proof {
                                    assert(out@ =~= prec + child_rows(
                                        d,
                                        c,
                                        node.database.children[c as int],
                                        node.child_collapsed[c as int],
                                    ));
                                }
                            } else {
                                proof {
                                    assert(out@ =~= prec + child_rows(
                                        d,
                                        c,
                                        node.database.children[c as int],
                                        node.child_collapsed[c as int],
                                    ));
                                }
                            }
                        },
                    }
                    c = c + 1;
                    proof {
                        assert(out@ =~= pre + seq![RowTarget::Db { db: d }] + node_children_rows(
                            d,
                            node,
                            c as int,
                        ));
                    }
                }
                proof {
                    assert(out@ =~= pre + node_rows(d, node));
                }
            } else {
                proof {
                    assert(out@ =~= pre + node_rows(d, node));
                }
            }
            d = d + 1;
            proof {
                assert(out@ =~= tree_rows_upto(self@.nodes, d as int));
            }
        }
        out
    }

    fn set_node_collapsed(&mut self, d: usize, v: bool)
        requires
            nodes_wf(old(self)@.nodes),
            (d as int) < old(self)@.nodes.len(),
        ensures
            final(self)@.nodes == old(self)@.nodes.update(
                d as int,
                DbNodeV { collapsed: v, ..old(self)@.nodes[d as int] },
            ),
            final(self)@.selection == old(self)@.selection,
            nodes_wf(final(self)@.nodes),
    {
        let node = &self.nodes[d];
        let replacement = DbNode {
            database: node.database.clone(),
            collapsed: v,
            child_collapsed: clone_bools(&node.child_collapsed),
        };
        self.nodes[d] = replacement;
        proof {
            assert(final(self)@.nodes =~= old(self)@.nodes.update(
                d as int,
                DbNodeV { collapsed: v, ..old(self)@.nodes[d as int] },
            ));
        }
    }

    fn set_child_collapsed(&mut self, d: usize, c: usize, v: bool)
        requires
            nodes_wf(old(self)@.nodes),
            (d as int) < old(self)@.nodes.len(),
            (c as int) < old(self)@.nodes[d as int].child_collapsed.len(),
        ensures
            final(self)@.nodes == old(self)@.nodes.update(
                d as int,
                DbNodeV {
                    child_collapsed: old(self)@.nodes[d as int].child_collapsed.update(
                        c as int,
                        v,
                    ),
                    ..old(self)@.nodes[d as int]
                },
            ),
            final(self)@.selection == old(self)@.selection,
            nodes_wf(final(self)@.nodes),
    {
        let node = &self.nodes[d];
        let mut flags = clone_bools(&node.child_collapsed);
        flags[c] = v;
        let replacement = DbNode {
            database: node.database.clone(),
            collapsed: node.collapsed,
            child_collapsed: flags,
        };
        self.nodes[d] = replacement;
        proof {
            assert(final(self)@.nodes =~= old(self)@.nodes.update(
                d as int,
                DbNodeV {
                    child_collapsed: old(self)@.nodes[d as int].child_collapsed.update(
                        c as int,
                        v,
                    ),
                    ..old(self)@.nodes[d as int]
                },
            ));
        }
    }

    /// Puts the selection on `target` if it is visible, else on the first row.
    fn reselect(&mut self, target: RowTarget)
        requires
            nodes_wf(old(self)@.nodes),
        ensures
            final(self)@.nodes == old(self)@.nodes,
            tree_wf(final(self)@),
            (exists|i: int|
                0 <= i < tree_rows(old(self)@).len() && tree_rows(old(self)@)[i] == target)
                ==> tree_rows(final(self)@)[final(self)@.selection as int] == target,
    {
        self.selection = 0;
        let rows = self.visible_rows();
        match find_row(&rows, target) {
            Some(i) => {
                self.selection = i;
            },
            None => {
                self.selection = 0;
            },
        }
    }

    /// Moves, collapses or expands per the navigation request; reports
    /// whether anything changed.
    pub fn move_selection(&mut self, nav: MoveSelection) -> (changed: bool)
        requires
            tree_wf(old(self)@),
        ensures
            tree_wf(final(self)@),
            DatabaseTree::spec_databases(final(self)@) == DatabaseTree::spec_databases(
                old(self)@,
            ),
            tree_rows(old(self)@).len() == 0 ==> final(self)@ == old(self)@ && !changed,
            nav == MoveSelection::Up ==> final(self)@.nodes == old(self)@.nodes && final(self)@.selection == if old(self)@.selection > 0 {
                (old(self)@.selection - 1) as usize
            } else {
                0
            },
            nav == MoveSelection::Down && tree_rows(old(self)@).len() > 0 ==> final(self)@.nodes
                == old(self)@.nodes && final(self)@.selection == if old(self)@.selection + 1
                < tree_rows(old(self)@).len() {
                old(self)@.selection + 1
            } else {
                old(self)@.selection as int
            },
            nav == MoveSelection::Top ==> final(self)@.nodes == old(self)@.nodes && final(self)@.selection == 0,
            nav == MoveSelection::End && tree_rows(old(self)@).len() > 0 ==> final(self)@.nodes
                == old(self)@.nodes && final(self)@.selection == tree_rows(old(self)@).len()
                - 1,
            (nav == MoveSelection::Left && tree_rows(old(self)@).len() > 0) ==> (match tree_rows(
                old(self)@,
            )[old(self)@.selection as int] {
                RowTarget::Db { db } => if !old(self)@.nodes[db as int].collapsed {
                    ({
                        &&& changed
                        &&& final(self)@.nodes == old(self)@.nodes.update(
                            db as int,
                            DbNodeV { collapsed: true, ..old(self)@.nodes[db as int] },
                        )
                        &&& tree_rows(final(self)@)[final(self)@.selection as int] == (
                        RowTarget::Db { db })
                    })
                } else {
                    !changed && *final(self) == *old(self)
                },
                RowTarget::Table { db, child } => ({
                    &&& changed
                    &&& final(self)@.nodes == old(self)@.nodes
                    &&& tree_rows(final(self)@)[final(self)@.selection as int] == (
                    RowTarget::Db { db })
                }),
                _ => true,
            }),
            (nav == MoveSelection::Right && tree_rows(old(self)@).len() > 0) ==> (match tree_rows(
                old(self)@,
            )[old(self)@.selection as int] {
                RowTarget::Db { db } => if old(self)@.nodes[db as int].collapsed {
                    ({
                        &&& changed
                        &&& final(self)@.nodes == old(self)@.nodes.update(
                            db as int,
                            DbNodeV { collapsed: false, ..old(self)@.nodes[db as int] },
                        )
                        &&& tree_rows(final(self)@)[final(self)@.selection as int] == (
                        RowTarget::Db { db })
                    })
                } else {
                    final(self)@.nodes == old(self)@.nodes
                },
                RowTarget::Table { db, child } => !changed && *final(self) == *old(self),
                RowTarget::SchemaTable { db, child, table } => !changed && *final(self) == *old(
                    self,
                ),
                _ => true,
            }),
    {
        let rows = self.visible_rows();
        if rows.len() == 0 {
            return false;
        }
        proof {
            lemma_tree_bounded(self);
            lemma_rows_valid(
                self@.nodes,
                self@.nodes.len() as int,
                self@.selection as int,
            );
        }
        match nav {
            MoveSelection::Up => {
                if self.selection > 0 {
                    self.selection = self.selection - 1;
                    true
                } else {
                    false
                }
            },
            MoveSelection::Down => {
                if self.selection + 1 < rows.len() {
                    self.selection = self.selection + 1;
                    true
                } else {
                    false
                }
            },
            MoveSelection::MultipleUp => {
                let before = self.selection;
                if self.selection >= 10 {
                    self.selection = self.selection - 10;
                } else {
                    self.selection = 0;
                }
                self.selection != before
            },
            MoveSelection::MultipleDown => {
                let before = self.selection;
                if rows.len() - 1 - self.selection >= 10 {
                    self.selection = self.selection + 10;
                } else {
                    self.selection = rows.len() - 1;
                }
                self.selection != before
            },
            MoveSelection::Top => {
                let changed = self.selection != 0;
                self.selection = 0;
                changed
            },
            MoveSelection::End => {
                let changed = self.selection != rows.len() - 1;
                self.selection = rows.len() - 1;
                changed
            },
            MoveSelection::Left => {
                match rows[self.selection] {
                    RowTarget::Db { db } => {
                        if !self.nodes[db].collapsed {
                            self.set_node_collapsed(db, true);
                            self.reselect(RowTarget::Db { db });
                            proof {
                                lemma_db_row_exists(self@.nodes, db);
                            }
                            true
                        } else {
                            false
                        }
                    },
                    RowTarget::Schema { db, child } => {
                        if !self.nodes[db].child_collapsed[child] {
                            self.set_child_collapsed(db, child, true);
                            self.reselect(RowTarget::Schema { db, child });
                        } else {
                            self.reselect(RowTarget::Db { db });
                            proof {
                                lemma_db_row_exists(self@.nodes, db);
                            }
                        }
                        true
                    },
                    RowTarget::Table { db, child: _ } => {
                        self.reselect(RowTarget::Db { db });
                        proof {
                            lemma_db_row_exists(self@.nodes, db);
                        }
                        true
                    },
                    RowTarget::SchemaTable { db, child, table: _ } => {
                        self.reselect(RowTarget::Schema { db, child });
                        true
                    },
                }
            },
            MoveSelection::Right => {
                match rows[self.selection] {
                    RowTarget::Db { db } => {
                        if self.nodes[db].collapsed {
                            self.set_node_collapsed(db, false);
                            self.reselect(RowTarget::Db { db });
                            proof {
                                lemma_db_row_exists(self@.nodes, db);
                            }
                            true
                        } else if self.nodes[db].database.children.len() > 0 {
                            let target = match &self.nodes[db].database.children[0] {
                                Child::Table(_) => RowTarget::Table { db, child: 0 },
                                Child::Schema(_) => RowTarget::Schema { db, child: 0 },
                            };
                            self.reselect(target);
                            true
                        } else {
                            false
                        }
                    },
                    RowTarget::Schema { db, child } => {
                        if self.nodes[db].child_collapsed[child] {
                            self.set_child_collapsed(db, child, false);
                            self.reselect(RowTarget::Schema { db, child });
                            true
                        } else {
                            let has_table = match &self.nodes[db].database.children[child] {
                                Child::Schema(s) => s.tables.len() > 0,
                                Child::Table(_) => false,
                            };
                            if has_table {
                                self.reselect(RowTarget::SchemaTable { db, child, table: 0 });
                                true
                            } else {
                                false
                            }
                        }
                    },
                    RowTarget::Table { .. } => false,
                    RowTarget::SchemaTable { .. } => false,
                }
            },
        }
    }

    /// The database and table under the selection, if the selected row is a
    /// table row.
    pub fn selected_table(&self) -> (r: Option<(Database, Table)>)
        requires
            tree_wf(self@),
        ensures
            match r {
                Some(p) => tree_rows(self@).len() > 0 && (match tree_rows(
                    self@,
                )[self@.selection as int] {
                    RowTarget::Table { db, child } => p.0@ == self@.nodes[db as int].database
                        && self@.nodes[db as int].database.children[child as int]
                        == ChildV::Table(p.1@),
                    RowTarget::SchemaTable { db, child, table } => p.0@
                        == self@.nodes[db as int].database && (self@.nodes[
                        db as int
                    ].database.children[child as int] matches ChildV::Schema(s)
                        && s.tables[table as int] == p.1@),
                    _ => false,
                }),
                None => tree_rows(self@).len() == 0 || !(tree_rows(
                    self@,
                )[self@.selection as int] is Table || tree_rows(
                    self@,
                )[self@.selection as int] is SchemaTable),
            },
    {
        let rows = self.visible_rows();
        if rows.len() == 0 {
            return None;
        }
        proof {
            lemma_tree_bounded(self);
            lemma_rows_valid(
                self@.nodes,
                self@.nodes.len() as int,
                self@.selection as int,
            );
        }
        match rows[self.selection] {
            RowTarget::Table { db, child } => {
                let node = &self.nodes[db];
                match &node.database.children[child] {
                    Child::Table(t) => Some((node.database.clone(), t.clone())),
                    Child::Schema(_) => {
                        proof {
                            assert(false);
                        }
                        None
                    },
                }
            },
            RowTarget::SchemaTable { db, child, table } => {
                let node = &self.nodes[db];
                match &node.database.children[child] {
                    Child::Schema(s) => Some((node.database.clone(), s.tables[table].clone())),
                    Child::Table(_) => {
                        proof {
                            assert(false);
                        }
                        None
                    },
                }
            },
            _ => None,
        }
    }
}

/// A table passes the filter when its name holds the pattern as a substring.
pub open spec fn table_matches(t: TableV, pat: Seq<char>) -> bool {
    strutil::contains_seq(t.name, pat)
}

pub open spec fn filter_tables(ts: Seq<TableV>, pat: Seq<char>) -> Seq<TableV>
    decreases ts.len(),
{
    if ts.len() == 0 {
        Seq::empty()
    } else {
        filter_tables(ts.drop_last(), pat) + if table_matches(ts.last(), pat) {
            seq![ts.last()]
        } else {
            Seq::empty()
        }
    }
}

pub open spec fn filter_child(c: ChildV, pat: Seq<char>) -> Seq<ChildV> {
    match c {
        ChildV::Table(t) => if table_matches(t, pat) {
            seq![ChildV::Table(t)]
        } else {
            Seq::empty()
        },
        ChildV::Schema(s) => {
            let ft = filter_tables(s.tables, pat);
            if ft.len() > 0 {
                seq![ChildV::Schema(SchemaV { name: s.name, tables: ft })]
            } else {
                Seq::empty()
            }
        },
    }
}

pub open spec fn filter_children(cs: Seq<ChildV>, pat: Seq<char>) -> Seq<ChildV>
    decreases cs.len(),
{
    if cs.len() == 0 {
        Seq::empty()
    } else {
        filter_children(cs.drop_last(), pat) + filter_child(cs.last(), pat)
    }
}

pub open spec fn filter_node(d: DatabaseV, pat: Seq<char>) -> Seq<DbNodeV> {
    let fc = filter_children(d.children, pat);
    if fc.len() > 0 {
        seq![
            DbNodeV {
                database: DatabaseV { name: d.name, children: fc },
                collapsed: false,
                child_collapsed: Seq::new(fc.len(), |i: int| false),
            },
        ]
    } else {
        Seq::empty()
    }
}

/// Databases restricted to the tables whose name holds the pattern; empty
/// databases and schema groups drop out, and everything left is expanded.
pub open spec fn filter_nodes(dbs: Seq<DatabaseV>, pat: Seq<char>) -> Seq<DbNodeV>
    decreases dbs.len(),
{
    if dbs.len() == 0 {
        Seq::empty()
    } else {
        filter_nodes(dbs.drop_last(), pat) + filter_node(dbs.last(), pat)
    }
}

impl DatabaseTree {
    /// The filtered view of the tree: only tables whose name holds `pattern`,
    /// with every remaining branch expanded and the selection on the first row.
    pub fn filter(&self, pattern: &String) -> (r: DatabaseTree)
        ensures
            r@.nodes == filter_nodes(DatabaseTree::spec_databases(self@), pattern@),
            r@.selection == 0,
            tree_wf(r@),
    {
        let pat = strutil::chars_of(pattern.as_str());
        let ghost dbs = DatabaseTree::spec_databases(self@);
        let mut nodes: Vec<DbNode> = Vec::new();
        let mut d: usize = 0;
        while d < self.nodes.len()
            invariant
                d <= self.nodes@.len(),
                pat@ == pattern@,
                dbs == DatabaseTree::spec_databases(self@),
                dbs.len() == self.nodes@.len(),
                forall|k: int| 0 <= k < dbs.len() ==> #[trigger] dbs[k] == self.nodes@[k]@.database,
                nodes@.map_values(|n: DbNode| n@) == filter_nodes(
                    dbs.subrange(0, d as int),
                    pattern@,
                ),
                nodes_wf(nodes@.map_values(|n: DbNode| n@)),
            decreases self.nodes@.len() - d,
        {
            let ghost prefix = dbs.subrange(0, d as int);
            let db = &self.nodes[d].database;
            let ghost dv = db@;
            let mut kept: Vec<Child> = Vec::new();
            let mut c: usize = 0;
            while c < db.children.len()
                invariant
                    c <= db.children@.len(),
                    pat@ == pattern@,
                    dv == db@,
                    dv.children.len() == db.children@.len(),
                    kept@.map_values(|x: Child| x@) == filter_children(
                        dv.children.subrange(0, c as int),
                        pattern@,
                    ),
                decreases db.children@.len() - c,
            {
                let ghost cpre = dv.children.subrange(0, c as int);
                let ghost kpre = kept@.map_values(|x: Child| x@);
                match &db.children[c] {
                    Child::Table(t) => {
                        let name_chars = strutil::chars_of(t.name.as_str());
                        if strutil::chars_contain(&name_chars, &pat) {
                            kept.push(Child::Table(t.clone()));
                            proof {
                                assert(kept@.map_values(|x: Child| x@) =~= kpre.push(
                                    dv.children[c as int],
                                ));
                            }
                        }
                    },
                    Child::Schema(s) => {
                        let ghost sts = s@.tables;
                        let mut ktab: Vec<Table> = Vec::new();
                        let mut ti: usize = 0;
                        while ti < s.tables.len()
                            invariant
                                ti <= s.tables@.len(),
                                pat@ == pattern@,
                                sts == s@.tables,
                                sts.len() == s.tables@.len(),
                                forall|k: int|
                                    0 <= k < sts.len() ==> #[trigger] sts[k] == s.tables@[k]@,
                                ktab@.map_values(|t: Table| t@) == filter_tables(
                                    sts.subrange(0, ti as int),
                                    pattern@,
                                ),
                            decreases s.tables@.len() - ti,
                        {
                            let ghost tpre = ktab@.map_values(|t: Table| t@);
                            let name_chars = strutil::chars_of(s.tables[ti].name.as_str());
                            if strutil::chars_contain(&name_chars, &pat) {
                                ktab.push(s.tables[ti].clone());
                                proof {
                                    assert(ktab@.map_values(|t: Table| t@) =~= tpre.push(
                                        sts[ti as int],
                                    ));
                                }
                            }
                            ti = ti + 1;
                            proof {
                                assert(sts.subrange(0, ti as int).drop_last() =~= sts.subrange(
                                    0,
                                    ti - 1,
                                ));
                                assert(sts.subrange(0, ti as int).last() == sts[ti - 1]);
                            }
                        }
                        proof {
                            assert(sts.subrange(0, sts.len() as int) =~= sts);
                        }
                        if ktab.len() > 0 {
                            kept.push(
                                Child::Schema(Schema { name: s.name.clone(), tables: ktab }),
                            );
                            proof {
                                assert(kept@.map_values(|x: Child| x@) =~= kpre + filter_child(
                                    dv.children[c as int],
                                    pattern@,
                                ));
                            }
                        }
                    },
                }
                c = c + 1;
                proof {
                    assert(dv.children.subrange(0, c as int).drop_last() =~= dv.children.subrange(
                        0,
                        c - 1,
                    ));
                    assert(dv.children.subrange(0, c as int).last() == dv.children[c - 1]);
                    assert(kept@.map_values(|x: Child| x@) =~= filter_children(
                        dv.children.subrange(0, c as int),
                        pattern@,
                    ));
                }
            }
            proof {
                assert(dv.children.subrange(0, dv.children.len() as int) =~= dv.children);
            }
            if kept.len() > 0 {
                let n = kept.len();
                let mut flags: Vec<bool> = Vec::new();
                let mut f: usize = 0;
                while f < n
                    invariant
                        f <= n,
                        flags@ =~= Seq::new(f as nat, |i: int| false),
                    decreases n - f,
                {
                    flags.push(false);
                    f = f + 1;
                    assert(flags@ =~= Seq::new(f as nat, |i: int| false));
                }
                let ghost kv = kept@.map_values(|x: Child| x@);
                nodes.push(
                    DbNode {
                        database: Database { name: db.name.clone(), children: kept },
                        collapsed: false,
                        child_collapsed: flags,
                    },
                );
                proof {
                    assert(nodes@.map_values(|n: DbNode| n@) =~= filter_nodes(
                        prefix,
                        pattern@,
                    ) + filter_node(dv, pattern@));
                }
            }
            d = d + 1;
            proof {
                assert(dbs.subrange(0, d as int).drop_last() =~= dbs.subrange(0, d - 1));
                assert(dbs.subrange(0, d as int).last() == dbs[d - 1]);
                assert(dbs[d - 1] == dv);
                assert(nodes@.map_values(|n: DbNode| n@) =~= filter_nodes(
                    dbs.subrange(0, d as int),
                    pattern@,
                ));
            }
        }
        proof {
            assert(dbs.subrange(0, dbs.len() as int) =~= dbs);
        }
        let r = DatabaseTree { nodes, selection: 0 };
        r
    }
}

/// Rendering a table name and matching it back through the filter is
/// stable: a filter string that occurs in a table's name keeps that table
/// in the filtered outline.
pub proof fn lemma_filter_retains_table(ts: Seq<TableV>, pat: Seq<char>, i: int)
    requires
        0 <= i < ts.len(),
        strutil::contains_seq(ts[i].name, pat),
    ensures
        exists|j: int|
            0 <= j < filter_tables(ts, pat).len() && #[trigger] filter_tables(ts, pat)[j]
                == ts[i],
    decreases ts.len(),
{
    let fc = filter_tables(ts, pat);
    let pre = filter_tables(ts.drop_last(), pat);
    if i == ts.len() - 1 {
        assert(table_matches(ts.last(), pat));
        assert(fc[fc.len() - 1] == ts[i]);
    } else {
        assert(ts.drop_last()[i] == ts[i]);
        lemma_filter_retains_table(ts.drop_last(), pat, i);
        let j = choose|j: int|
            0 <= j < pre.len() && #[trigger] filter_tables(ts.drop_last(), pat)[j]
                == ts.drop_last()[i];
        assert(fc[j] == pre[j]);
    }
}

fn clone_bools(bs: &Vec<bool>) -> (r: Vec<bool>)
    ensures
        r@ == bs@,
{
    let mut r: Vec<bool> = Vec::new();
    let mut i: usize = 0;
    while i < bs.len()
        invariant
            i <= bs@.len(),
            r@ == bs@.subrange(0, i as int),
        decreases bs@.len() - i,
    {
        r.push(bs[i]);
        i = i + 1;
        assert(r@ =~= bs@.subrange(0, i as int));
    }
    assert(bs@.subrange(0, bs@.len() as int) =~= bs@);
    r
}

/// Index of `target` among `rows`, if present.
fn find_row(rows: &Vec<RowTarget>, target: RowTarget) -> (r: Option<usize>)
    ensures
        match r {
            Some(i) => (i as int) < rows@.len() && rows@[i as int] == target,
            None => forall|k: int| 0 <= k < rows@.len() ==> rows@[k] != target,
        },
{
    let mut i: usize = 0;
    while i < rows.len()
        invariant
            i <= rows@.len(),
            forall|k: int| 0 <= k < i ==> rows@[k] != target,
        decreases rows@.len() - i,
    {
        if rows[i] == target {
            return Some(i);
        }
        i = i + 1;
    }
    None
}

} // verus!
