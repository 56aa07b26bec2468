//! The sidebar: a filter box over the database tree.  While the filter text
//! is non-empty a filtered copy of the tree is shown; picking a table
//! broadcasts the selection.

use vstd::prelude::*;
use crate::config::{Connection, KeyConfig};
use crate::dbtree::{Database, DatabaseTree, MoveSelection, Table};
use crate::err::UiError;
use crate::event::Key;
use crate::strutil;

verus! {

use vstd::string::StringExecFns;
use crate::app::{AppMessage, ConnectionEvent, GlobalMessageQueue, PoolRequest};
use crate::components::{CommandInfo, Component, EventState};
use crate::dbtree;
use crate::ui::textbox::{tb_model, textbox_inv, TextBox};

/// Which half of the sidebar has focus.
#[derive(Debug, Clone, Copy, PartialEq, Eq, Structural)]
pub enum Focus {
    Filter,
    Tree,
}

/// Broadcast when the user picks a table in the tree.
pub enum DatabaseEvent {
    TableSelected(Database, Table),
}

/// One styled fragment of a tree row.
#[derive(Debug)]
pub struct TreeSpan {
    pub text: String,
    /// The row under the visual selection.
    pub selected: bool,
    /// The fragment that matched the filter.
    pub highlight: bool,
}

/// What a tree row displays.
#[derive(Debug)]
pub struct TreeItemView {
    pub name: String,
    pub indent: u8,
    /// Databases and schema groups carry a fold arrow.
    pub is_branch: bool,
    pub collapsed: bool,
}

impl TreeItemView {
    pub fn new_database(db: &Database, collapsed: bool) -> (r: TreeItemView)
        ensures
            r.name@ == db@.name,
            r.indent == 0,
            r.is_branch,
            r.collapsed == collapsed,
    {
        TreeItemView { name: db.name.clone(), indent: 0, is_branch: true, collapsed }
    }

    pub fn new_table(table: &Table) -> (r: TreeItemView)
        ensures
            r.name@ == table@.name,
            r.indent == 1,
            !r.is_branch,
            !r.collapsed,
    {
        TreeItemView { name: table.name.clone(), indent: 1, is_branch: false, collapsed: false }
    }
}

/// `n` spaces (none for a non-positive count).
pub open spec fn spaces(n: int) -> Seq<char> {
    if n <= 0 {
        Seq::empty()
    } else {
        Seq::new(n as nat, |i: int| ' ')
    }
}

/// `s` padded on the right with spaces up to width `w`.
pub open spec fn pad_right(s: Seq<char>, w: int) -> Seq<char> {
    s + spaces(w - s.len())
}

/// The fold arrow of a row.
pub open spec fn arrow_of(item: &TreeItemView) -> Seq<char> {
    if item.is_branch {
        if item.collapsed {
            "\u{25b8}"@
        } else {
            "\u{25be}"@
        }
    } else {
        Seq::empty()
    }
}

fn push_chars(out: &mut Vec<char>, s: &Vec<char>)
    ensures
        final(out)@ == old(out)@ + s@,
{
    let mut i: usize = 0;
    while i < s.len()
        invariant
            i <= s@.len(),
            out@ == old(out)@ + s@.subrange(0, i as int),
        decreases s@.len() - i,
    {
        out.push(s[i]);
        i = i + 1;
        assert(out@ =~= old(out)@ + s@.subrange(0, i as int));
    }
    assert(s@.subrange(0, s@.len() as int) =~= s@);
}

fn push_spaces(out: &mut Vec<char>, n: usize)
    ensures
        final(out)@ == old(out)@ + spaces(n as int),
{
    let mut i: usize = 0;
    while i < n
        invariant
            i <= n,
            out@ == old(out)@ + spaces(i as int),
        decreases n - i,
    {
        out.push(' ');
        i = i + 1;
        assert(out@ =~= old(out)@ + spaces(i as int));
    }
}

fn arrow_chars(item: &TreeItemView) -> (r: Vec<char>)
    ensures
        r@ == arrow_of(item),
{
    if item.is_branch {
        if item.collapsed {
            let r = strutil::chars_of("\u{25b8}");
            r
        } else {
            let r = strutil::chars_of("\u{25be}");
            r
        }
    } else {
        Vec::new()
    }
}

/// Renders one tree row.  Without a filter (or when the row does not match)
/// the row is one fragment: indent, arrow, and the name padded to `width`.
/// A matching table row splits into three fragments with the matched part
/// highlighted.
pub fn tree_item_to_span(
    item: TreeItemView,
    selected: bool,
    width: u16,
    filter: Option<String>,
) -> (r: Vec<TreeSpan>)
    ensures
        r@.len() == 1 || r@.len() == 3,
        r@.len() == 3 <==> (filter matches Some(f) && !item.is_branch && strutil::contains_seq(
            item.name@,
            f@,
        )),
        forall|i: int| 0 <= i < r@.len() ==> (#[trigger] r@[i]).selected == selected,
        r@.len() == 1 ==> !r@[0].highlight && r@[0].text@ == spaces(2 * item.indent) + arrow_of(
            &item,
        ) + pad_right(item.name@, width as int),
        r@.len() == 3 ==> (filter matches Some(f) && !item.is_branch && !r@[0].highlight
            && r@[1].highlight && !r@[2].highlight && exists|pos: int|
            {
                &&& #[trigger] strutil::contains_at(item.name@, f@, pos)
                &&& (forall|k: int| 0 <= k < pos ==> !strutil::contains_at(item.name@, f@, k))
                &&& r@[0].text@ == spaces(2 * item.indent) + arrow_of(&item)
                    + item.name@.subrange(0, pos)
                &&& r@[1].text@ == item.name@.subrange(pos, pos + f@.len())
                &&& r@[2].text@ == pad_right(
                    item.name@.subrange(pos + f@.len(), item.name@.len() as int),
                    width as int,
                )
            }),
{
    let indent_n: usize = 2 * (item.indent as usize);
    let arrow = arrow_chars(&item);
    let name_chars = strutil::chars_of(item.name.as_str());
    if let Some(f) = &filter {
        if !item.is_branch {
            let f_chars = strutil::chars_of(f.as_str());
            let name_total = name_chars.len();
            if let Some(pos) = strutil::chars_find(&name_chars, &f_chars) {
                assert(pos + f_chars@.len() <= name_total);
                let mut first: Vec<char> = Vec::new();
                push_spaces(&mut first, indent_n);
                push_chars(&mut first, &arrow);
                let mut k: usize = 0;
                while k < pos
                    invariant
                        pos + f_chars@.len() <= name_chars@.len(),
                        k <= pos,
                        first@ == spaces(indent_n as int) + arrow@ + name_chars@.subrange(
                            0,
                            k as int,
                        ),
                    decreases pos - k,
                {
                    first.push(name_chars[k]);
                    k = k + 1;
                    assert(first@ =~= spaces(indent_n as int) + arrow@ + name_chars@.subrange(
                        0,
                        k as int,
                    ));
                }
                let mut middle: Vec<char> = Vec::new();
                let mut k: usize = pos;
                while k < pos + f_chars.len()
                    invariant
                        name_chars@.len() <= usize::MAX,
                        pos + f_chars@.len() <= name_chars@.len(),
                        pos <= k <= pos + f_chars@.len(),
                        middle@ == name_chars@.subrange(pos as int, k as int),
                    decreases pos + f_chars@.len() - k,
                {
                    middle.push(name_chars[k]);
                    k = k + 1;
                    assert(middle@ =~= name_chars@.subrange(pos as int, k as int));
                }
                let mut last: Vec<char> = Vec::new();
                let mut k: usize = pos + f_chars.len();
                while k < name_chars.len()
                    invariant
                        name_chars@.len() <= usize::MAX,
                        pos + f_chars@.len() <= k <= name_chars@.len(),
                        last@ == name_chars@.subrange(pos + f_chars@.len(), k as int),
                    decreases name_chars@.len() - k,
                {
                    last.push(name_chars[k]);
                    k = k + 1;
                    assert(last@ =~= name_chars@.subrange(pos + f_chars@.len(), k as int));
                }
                let shown = last.len();
                if shown < width as usize {
                    push_spaces(&mut last, width as usize - shown);
                }
                let mut out: Vec<TreeSpan> = Vec::new();
                out.push(
                    TreeSpan {
                        text: strutil::string_from_chars(&first),
                        selected,
                        highlight: false,
                    },
                );
                out.push(
                    TreeSpan {
                        text: strutil::string_from_chars(&middle),
                        selected,
                        highlight: true,
                    },
                );
                out.push(
                    TreeSpan {
                        text: strutil::string_from_chars(&last),
                        selected,
                        highlight: false,
                    },
                );
                return out;
            }
        }
    }
    let mut chars: Vec<char> = Vec::new();
    push_spaces(&mut chars, indent_n);
    push_chars(&mut chars, &arrow);
    push_chars(&mut chars, &name_chars);
    let shown = chars.len();
    let name_len = name_chars.len();
    if name_len < width as usize {
        push_spaces(&mut chars, width as usize - name_len);
    }
    proof {
        assert(chars@ =~= spaces(2 * item.indent) + arrow_of(&item) + pad_right(
            item.name@,
            width as int,
        ));
    }
    let mut out: Vec<TreeSpan> = Vec::new();
    out.push(TreeSpan { text: strutil::string_from_chars(&chars), selected, highlight: false });
    out
}

/// Maps a key to a tree navigation request per the shared bindings.
pub open spec fn nav_of(key: Key, cfg: KeyConfig) -> Option<MoveSelection> {
    if key == cfg.move_up {
        Some(MoveSelection::Up)
    } else if key == cfg.move_down {
        Some(MoveSelection::Down)
    } else if key == cfg.scroll_up_multiple_lines {
        Some(MoveSelection::MultipleUp)
    } else if key == cfg.scroll_down_multiple_lines {
        Some(MoveSelection::MultipleDown)
    } else if key == Key::Home {
        Some(MoveSelection::Top)
    } else if key == Key::End {
        Some(MoveSelection::End)
    } else if key == cfg.scroll_left {
        Some(MoveSelection::Left)
    } else if key == cfg.scroll_right {
        Some(MoveSelection::Right)
    } else {
        None
    }
}

/// The shared navigation mapping.
pub fn common_nav(key: Key, key_config: &KeyConfig) -> (r: Option<MoveSelection>)
    ensures
        r == nav_of(key, *key_config),
{
    if key == key_config.move_up {
        Some(MoveSelection::Up)
    } else if key == key_config.move_down {
        Some(MoveSelection::Down)
    } else if key == key_config.scroll_up_multiple_lines {
        Some(MoveSelection::MultipleUp)
    } else if key == key_config.scroll_down_multiple_lines {
        Some(MoveSelection::MultipleDown)
    } else if key == Key::Home {
        Some(MoveSelection::Top)
    } else if key == Key::End {
        Some(MoveSelection::End)
    } else if key == key_config.scroll_left {
        Some(MoveSelection::Left)
    } else if key == key_config.scroll_right {
        Some(MoveSelection::Right)
    } else {
        None
    }
}

/// A broadcast that switches to a connection.
pub open spec fn is_conn_some(m: AppMessage) -> bool {
    m matches AppMessage::Connection(ConnectionEvent::ConnectionChanged(Some(_)))
}

/// The sidebar's freshly-reset shape: an empty outline, no filtered copy,
/// a cleared filter box, and tree focus.
pub open spec fn sidebar_reset(d: &DatabasesComponent) -> bool {
    &&& d.tree@.nodes.len() == 0
    &&& d.tree@.selection == 0
    &&& d.filterd_tree is None
    &&& tb_model(&d.filter).input.len() == 0
    &&& d.focus == Focus::Tree
}

pub struct DatabasesComponent {
    pub tree: DatabaseTree,
    pub filter: TextBox,
    pub filterd_tree: Option<DatabaseTree>,
    pub focus: Focus,
    pub key_config: KeyConfig,
}

pub open spec fn databases_inv(d: &DatabasesComponent) -> bool {
    &&& dbtree::tree_wf(d.tree@)
    &&& textbox_inv(&d.filter)
    &&& d.filter.completion is None
    &&& (d.filterd_tree matches Some(t) ==> dbtree::tree_wf(t@))
}

impl DatabasesComponent {
    pub fn new(key_config: KeyConfig) -> (r: DatabasesComponent)
        ensures
            databases_inv(&r),
            r.tree@.nodes.len() == 0,
            r.filterd_tree is None,
            r.focus == Focus::Tree,
            tb_model(&r.filter).input.len() == 0,
    {
        DatabasesComponent {
            tree: DatabaseTree::default(),
            filter: TextBox::default().with_placeholder(String::from_str("Filter tables")),
            filterd_tree: None,
            focus: Focus::Tree,
            key_config,
        }
    }

    /// Whether the tree half has focus.
    pub fn tree_focused(&self) -> (r: bool)
        ensures
            r == (self.focus == Focus::Tree),
    {
        matches!(self.focus, Focus::Tree)
    }

    /// The tree currently shown: the filtered copy when one exists.
    pub fn tree(&self) -> (r: &DatabaseTree)
        ensures
            (match self.filterd_tree {
                Some(_) => self.filterd_tree matches Some(t) && *r == t,
                None => *r == self.tree,
            }),
    {
        match &self.filterd_tree {
            Some(t) => t,
            None => &self.tree,
        }
    }

    /// Replaces the outline with the fetched database list: the sidebar then
    /// shows exactly those databases, collapsed, with the selection reset.
    pub fn apply_databases(&mut self, databases: Vec<Database>)
        requires
            databases_inv(old(self)),
        ensures
            databases_inv(final(self)),
            final(self).tree@.nodes.len() == databases@.len(),
            forall|i: int|
                0 <= i < databases@.len() ==> (#[trigger] final(self).tree@.nodes[i]).database
                    == databases@[i]@ && final(self).tree@.nodes[i].collapsed,
            final(self).tree@.selection == 0,
            final(self).filterd_tree is None,
            tb_model(&final(self).filter).input.len() == 0,
    {
        self.tree = DatabaseTree::new(databases);
        self.filterd_tree = None;
        self.filter.reset();
    }

    /// Reacts to a connection change: the sidebar resets and asks for the
    /// database list, pinned to the connection's database when it has one.
    pub fn on_connection_changed(
        &mut self,
        conn: &Option<Connection>,
        requests: &mut Vec<PoolRequest>,
    )
        requires
            databases_inv(old(self)),
        ensures
            databases_inv(final(self)),
            final(self).key_config == old(self).key_config,
            (match conn {
                Some(c) => {
                    &&& sidebar_reset(final(self))
                    &&& final(requests)@.len() == old(requests)@.len() + 1
                    &&& final(requests)@.drop_last() == old(requests)@
                    &&& (final(requests)@.last() matches PoolRequest::FetchDatabases { pinned }
                        && dbtree::view_opt(pinned) == dbtree::view_opt(c.database))
                },
                None => *final(self) == *old(self) && final(requests)@ == old(requests)@,
            }),
    {
        match conn {
            Some(c) => {
                self.tree = DatabaseTree::default();
                self.filterd_tree = None;
                self.filter.reset();
                self.focus = Focus::Tree;
                let pinned = match &c.database {
                    Some(db) => Some(db.clone()),
                    None => None,
                };
                requests.push(PoolRequest::FetchDatabases { pinned });
            },
            None => {},
        }
    }

    /// Routes the drained broadcasts: only connection changes matter here.
    pub fn handle_messages(
        &mut self,
        messages: &Vec<AppMessage>,
        requests: &mut Vec<PoolRequest>,
    ) -> (r: Result<(), UiError>)
        requires
            databases_inv(old(self)),
        ensures
            r is Ok,
            databases_inv(final(self)),
            final(self).key_config == old(self).key_config,
            final(requests)@.len() >= old(requests)@.len(),
            forall|j: int|
                0 <= j < old(requests)@.len() ==> final(requests)@[j] == old(requests)@[j],
            (exists|i: int|
                0 <= i < messages@.len() && is_conn_some(#[trigger] messages@[i]))
                ==> sidebar_reset(final(self)),
            (forall|i: int|
                0 <= i < messages@.len() ==> !is_conn_some(#[trigger] messages@[i])) ==> *final(self) == *old(self) && final(requests)@ == old(requests)@,
            (messages@.len() == 1 && messages@[0] matches AppMessage::Connection(
                ConnectionEvent::ConnectionChanged(Some(c)),
            )) ==> final(requests)@.len() == old(requests)@.len() + 1 && (final(requests)@.last() matches PoolRequest::FetchDatabases { pinned } && dbtree::view_opt(pinned)
                == dbtree::view_opt((match messages@[0] {
                AppMessage::Connection(ConnectionEvent::ConnectionChanged(Some(c2))) => c2,
                _ => arbitrary(),
            }).database)),
    {
        let mut k: usize = 0;
        while k < messages.len()
            invariant
                databases_inv(self),
                self.key_config == old(self).key_config,
                k <= messages@.len(),
                requests@.len() >= old(requests)@.len(),
                forall|j: int|
                    0 <= j < old(requests)@.len() ==> requests@[j] == old(requests)@[j],
                (exists|i: int| 0 <= i < k && is_conn_some(#[trigger] messages@[i]))
                    ==> sidebar_reset(self),
                (forall|i: int| 0 <= i < k ==> !is_conn_some(#[trigger] messages@[i])) ==> *self
                    == *old(self) && requests@ == old(requests)@,
                (messages@.len() == 1 && is_conn_some(messages@[0]) && k >= 1) ==> requests@.len()
                    == old(requests)@.len() + 1 && (requests@.last() matches PoolRequest::FetchDatabases {
                    pinned,
                } && dbtree::view_opt(pinned) == dbtree::view_opt((match messages@[0] {
                    AppMessage::Connection(ConnectionEvent::ConnectionChanged(Some(c2))) => c2,
                    _ => arbitrary(),
                }).database)),
            decreases messages@.len() - k,
        {
            match &messages[k] {
                AppMessage::Connection(ConnectionEvent::ConnectionChanged(conn)) => {
                    self.on_connection_changed(conn, requests);
                },
                _ => {},
            }
            k = k + 1;
        }
        Ok(())
    }
}

impl DatabasesComponent {
    /// Rebuilds the filtered copy from the current filter text: absent for
    /// an empty text, else the tree restricted to matching tables.
    fn refresh_filter(&mut self)
        requires
            databases_inv(old(self)),
        ensures
            databases_inv(final(self)),
            final(self).tree == old(self).tree,
            final(self).filter == old(self).filter,
            final(self).focus == old(self).focus,
            final(self).key_config == old(self).key_config,
            old(self).filter.input@.len() == 0 ==> final(self).filterd_tree is None,
            old(self).filter.input@.len() > 0 ==> (final(self).filterd_tree matches Some(ft)
                && ft@.nodes == dbtree::filter_nodes(
                DatabaseTree::spec_databases(old(self).tree@),
                old(self).filter.input@,
            ) && ft@.selection == 0),
    {
        let text = self.filter.get_text();
        if text.as_str().unicode_len() == 0 {
            self.filterd_tree = None;
        } else {
            self.filterd_tree = Some(self.tree.filter(&text));
        }
    }
}

impl Component for DatabasesComponent {
    open spec fn inv(&self) -> bool {
        databases_inv(self)
    }

    fn commands(&self, out: &mut Vec<CommandInfo>)
        ensures
            final(out)@.len() == old(out)@.len() + 1,
            forall|j: int| 0 <= j < old(out)@.len() ==> final(out)@[j] == old(out)@[j],
            final(out)@.last().group@ == "-- Databases --"@,
            final(out)@.last().name@ == "Expand/collapse [\u{2190},\u{2192}]"@,
    {
        out.push(
            CommandInfo::new(
                String::from_str("-- Databases --"),
                String::from_str("Expand/collapse [\u{2190},\u{2192}]"),
            ),
        );
    }

    /// The filter key moves focus to the filter box.  With the filter
    /// focused, the filtered tree tracks the text, `Enter` returns to the
    /// tree, and other keys edit the text.  With the tree focused, the
    /// shared navigation keys move or fold, and `Enter` on a table row
    /// broadcasts the selection.
    fn event(&mut self, key: Key, message_queue: &mut GlobalMessageQueue) -> (r: Result<
        EventState,
        UiError,
    >)
        ensures
            old(self).focus == Focus::Tree && key == old(self).key_config.filter ==> final(self).focus == Focus::Filter && (r matches Ok(s) && s == EventState::Consumed),
            old(self).focus == Focus::Filter && key == Key::Enter ==> final(self).focus
                == Focus::Tree && (old(self).filter.input@.len() == 0 ==> final(self).filterd_tree is None) && (old(self).filter.input@.len() > 0 ==> (final(self).filterd_tree matches Some(ft) && ft@.nodes == dbtree::filter_nodes(
                DatabaseTree::spec_databases(old(self).tree@),
                old(self).filter.input@,
            ) && ft@.selection == 0)) && (r matches Ok(s) && s == EventState::Consumed),
            ({
                &&& old(self).focus == Focus::Tree
                &&& key != old(self).key_config.filter
                &&& key == old(self).key_config.move_down
                &&& key != old(self).key_config.move_up
                &&& old(self).filterd_tree is None
                &&& dbtree::tree_rows(old(self).tree@).len() > 0
            }) ==> final(self).tree@.nodes == old(self).tree@.nodes && final(self).tree@.selection == (if old(self).tree@.selection + 1 < dbtree::tree_rows(
                old(self).tree@,
            ).len() {
                old(self).tree@.selection + 1
            } else {
                old(self).tree@.selection as int
            }),
            ({
                &&& old(self).focus == Focus::Tree
                &&& key != old(self).key_config.filter
                &&& key == old(self).key_config.move_up
                &&& key != old(self).key_config.move_down
                &&& old(self).filterd_tree is None
                &&& dbtree::tree_rows(old(self).tree@).len() > 0
            }) ==> final(self).tree@.nodes == old(self).tree@.nodes && final(self).tree@.selection == (if old(self).tree@.selection > 0 {
                old(self).tree@.selection - 1
            } else {
                0
            }),
            ({
                &&& old(self).focus == Focus::Filter
                &&& key != Key::Enter
            }) ==> (match crate::ui::textbox::textbox_step(tb_model(&old(self).filter), key) {
                Some(m) => tb_model(&final(self).filter) == m && (m.input.len() == 0 ==> final(self).filterd_tree is None) && (m.input.len() > 0 ==> (final(self).filterd_tree matches Some(ft) && ft@.nodes == dbtree::filter_nodes(
                    DatabaseTree::spec_databases(old(self).tree@),
                    m.input,
                ) && ft@.selection == 0)) && (r matches Ok(s) && s == EventState::Consumed),
                None => tb_model(&final(self).filter) == tb_model(&old(self).filter) && (old(self).filter.input@.len() == 0 ==> final(self).filterd_tree is None) && (old(self).filter.input@.len() > 0 ==> (final(self).filterd_tree matches Some(ft) && ft@.nodes == dbtree::filter_nodes(
                    DatabaseTree::spec_databases(old(self).tree@),
                    old(self).filter.input@,
                ) && ft@.selection == 0)),
            }),
            ({
                &&& old(self).focus == Focus::Tree
                &&& key == old(self).key_config.enter
                &&& key != old(self).key_config.filter
                &&& nav_of(key, old(self).key_config) is None
                &&& old(self).filterd_tree is None
                &&& dbtree::tree_rows(old(self).tree@).len() > 0
                &&& (dbtree::tree_rows(old(self).tree@)[old(self).tree@.selection as int]
                    is Table || dbtree::tree_rows(old(self).tree@)[old(self).tree@.selection as int] is SchemaTable)
            }) ==> final(message_queue).event_queue@.len() == old(message_queue).event_queue@.len() + 1 && (final(message_queue).event_queue@.last() matches AppMessage::Database(DatabaseEvent::TableSelected(d, t))
                && (match dbtree::tree_rows(old(self).tree@)[old(self).tree@.selection as int] {
                dbtree::RowTarget::Table { db, child } => d@ == old(self).tree@.nodes[
                    db as int
                ].database && old(self).tree@.nodes[db as int].database.children[child as int]
                    == dbtree::ChildV::Table(t@),
                dbtree::RowTarget::SchemaTable { db, child, table } => d@ == old(self).tree@.nodes[db as int].database && (old(self).tree@.nodes[
                    db as int
                ].database.children[child as int] matches dbtree::ChildV::Schema(sv)
                    && sv.tables[table as int] == t@),
                _ => false,
            })) && final(self).tree == old(self).tree && final(self).filterd_tree == old(self).filterd_tree && final(self).filter == old(self).filter && final(self).focus == old(self).focus && (r matches Ok(s) && s == EventState::Consumed),
    {
        if key == self.key_config.filter && matches!(self.focus, Focus::Tree) {
            self.focus = Focus::Filter;
            return Ok(EventState::Consumed);
        }
        match self.focus {
            Focus::Filter => {
                if key == Key::Enter {
                    self.refresh_filter();
                    self.focus = Focus::Tree;
                    return Ok(EventState::Consumed);
                }
                let res = self.filter.event(key, message_queue);
                self.refresh_filter();
                match res {
                    Ok(s) => {
                        if s.is_consumed() {
                            return Ok(EventState::Consumed);
                        }
                    },
                    Err(e) => {
                        return Err(e);
                    },
                }
            },
            Focus::Tree => {
                let moved = match common_nav(key, &self.key_config) {
                    Some(nav) => {
                        if self.filterd_tree.is_some() {
                            match &mut self.filterd_tree {
                                Some(t) => t.move_selection(nav),
                                None => false,
                            }
                        } else {
                            self.tree.move_selection(nav)
                        }
                    },
                    None => false,
                };
                if moved {
                    return Ok(EventState::Consumed);
                }
            },
        }
        if key == self.key_config.enter && matches!(self.focus, Focus::Tree) {
            let selected = match &self.filterd_tree {
                Some(t) => t.selected_table(),
                None => self.tree.selected_table(),
            };
            if let Some((database, table)) = selected {
                message_queue.push(
                    AppMessage::Database(DatabaseEvent::TableSelected(database, table)),
                );
                return Ok(EventState::Consumed);
            }
        }
        Ok(EventState::NotConsumed)
    }

    fn reset(&mut self)
        ensures
            sidebar_reset(final(self)),
            final(self).key_config == old(self).key_config,
    {
        self.tree = DatabaseTree::default();
        self.filterd_tree = None;
        self.filter.reset();
        self.focus = Focus::Tree;
    }
}

} // verus!
