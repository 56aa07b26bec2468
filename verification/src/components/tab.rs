//! The tab panel: a toolbar of tab titles over the selected tab's body.
//! The records and properties tabs are fixed; SQL editors come and go.

use vstd::prelude::*;
use crate::config::KeyConfig;
use crate::err::UiError;
use crate::event::Key;

verus! {

use vstd::string::StringExecFns;
use crate::app::{AppMessage, GlobalMessageQueue, PoolRequest};
use crate::components::properties::{properties_inv, PropertiesComponent};
use crate::components::record_table::{record_table_inv, RecordTableComponent};
use crate::components::sql_editor::{sql_editor_inv, SqlEditorComponent};
use crate::components::{CommandInfo, Component, EventState};
use crate::strutil;
use crate::ui::textbox::{tb_model, textbox_inv, TextBox};

/// Broadcasts the toolbar emits.
pub enum TabMessage {
    NewEditor,
    CloseCurrentEditor,
    RenameTab(usize, String),
}

/// What kind of body a tab shows.
#[derive(Debug, Clone, Copy, PartialEq, Eq, Structural)]
pub enum TabType {
    Records,
    Properties,
    Sql,
}

/// What every tab body offers the toolbar.
pub trait Tab {
    fn tab_type(&self) -> TabType;

    fn tab_name(&self) -> String;

    fn update_name(&mut self, _name: String) {
    }
}

/// The toolbar: tab titles, the selected index, and an inline rename box.
pub struct TabToolbar {
    pub selected_tab_index: usize,
    pub tab_names: Vec<String>,
    pub key_config: KeyConfig,
    pub is_renaming: bool,
    pub rename_box: TextBox,
}

/// The selected index points at a title (or rests at zero when empty).
pub open spec fn toolbar_wf(t: &TabToolbar) -> bool {
    &&& if t.tab_names@.len() == 0 {
        t.selected_tab_index == 0
    } else {
        t.selected_tab_index < t.tab_names@.len()
    }
    &&& textbox_inv(&t.rename_box)
}

/// The digit value of `1`–`9`, zero for any other character.
pub open spec fn digit_of(c: char) -> int {
    if c == '1' {
        1
    } else if c == '2' {
        2
    } else if c == '3' {
        3
    } else if c == '4' {
        4
    } else if c == '5' {
        5
    } else if c == '6' {
        6
    } else if c == '7' {
        7
    } else if c == '8' {
        8
    } else if c == '9' {
        9
    } else {
        0
    }
}

/// Which keys the toolbar swallows outside renaming, mirroring its
/// dispatch order.
pub open spec fn toolbar_consumes(key: Key, cfg: KeyConfig, len: int) -> bool {
    if key == Key::Char('r') || key == Key::Char('a') || key == Key::Char('x') || key
        == Key::Delete {
        true
    } else {
        match key {
            Key::Char(c) => if digit_of(c) > 0 {
                digit_of(c) <= len
            } else {
                key == cfg.focus_left || key == cfg.focus_right
            },
            _ => key == cfg.focus_left || key == cfg.focus_right || key == Key::End || key
                == Key::Home,
        }
    }
}

fn digit_of_exec(c: char) -> (r: usize)
    ensures
        r == digit_of(c),
{
    match c {
        '1' => 1,
        '2' => 2,
        '3' => 3,
        '4' => 4,
        '5' => 5,
        '6' => 6,
        '7' => 7,
        '8' => 8,
        '9' => 9,
        _ => 0,
    }
}

impl TabToolbar {
    pub fn new(tab_names: Vec<String>, key_config: KeyConfig) -> (r: TabToolbar)
        ensures
            toolbar_wf(&r),
            r.tab_names == tab_names,
            r.selected_tab_index == 0,
            !r.is_renaming,
            r.key_config == key_config,
    {
        TabToolbar {
            selected_tab_index: 0,
            tab_names,
            key_config,
            is_renaming: false,
            rename_box: TextBox::default().with_placeholder(String::from_str("Editor name"))
                .with_label(String::from_str("New name")),
        }
    }

    /// Appends a title for a freshly opened tab.
    pub fn add_tab(&mut self, tab_name: String)
        requires
            toolbar_wf(old(self)),
        ensures
            toolbar_wf(final(self)),
            final(self).tab_names@ == old(self).tab_names@.push(tab_name),
            final(self).rename_box == old(self).rename_box,
            final(self).selected_tab_index == old(self).selected_tab_index,
            final(self).is_renaming == old(self).is_renaming,
            final(self).key_config == old(self).key_config,
    {
        self.tab_names.push(tab_name);
    }

    /// Drops the title at `index`; the selection clamps so it keeps pointing
    /// at a title.
    pub fn remove_tab(&mut self, index: usize)
        requires
            toolbar_wf(old(self)),
            index < old(self).tab_names@.len(),
        ensures
            toolbar_wf(final(self)),
            final(self).tab_names@ == old(self).tab_names@.remove(index as int),
            final(self).rename_box == old(self).rename_box,
            final(self).selected_tab_index == if old(self).selected_tab_index < old(self).tab_names@.len() - 1 {
                old(self).selected_tab_index as int
            } else if old(self).tab_names@.len() >= 2 {
                old(self).tab_names@.len() - 2
            } else {
                0
            },
            final(self).is_renaming == old(self).is_renaming,
            final(self).key_config == old(self).key_config,
    {
        self.tab_names.remove(index);
        let n = self.tab_names.len();
        if self.selected_tab_index >= n {
            if n > 0 {
                self.selected_tab_index = n - 1;
            } else {
                self.selected_tab_index = 0;
            }
        }
    }

    /// Renames the title at `index`; the first tab keeps its name.
    pub fn rename_tab_at(&mut self, index: usize, name: String)
        requires
            toolbar_wf(old(self)),
        ensures
            toolbar_wf(final(self)),
            (index > 0 && index < old(self).tab_names@.len()) ==> final(self).tab_names@ == old(self).tab_names@.update(index as int, name),
            !(index > 0 && index < old(self).tab_names@.len()) ==> final(self).tab_names == old(self).tab_names,
            final(self).rename_box == old(self).rename_box,
            final(self).selected_tab_index == old(self).selected_tab_index,
            final(self).key_config == old(self).key_config,
            final(self).is_renaming == old(self).is_renaming,
    {
        if index > 0 && index < self.tab_names.len() {
            self.tab_names[index] = name;
        }
    }

    /// Puts the selection back on the first tab.
    pub fn reset(&mut self)
        requires
            toolbar_wf(old(self)),
        ensures
            toolbar_wf(final(self)),
            final(self).selected_tab_index == 0,
            final(self).tab_names == old(self).tab_names,
            final(self).is_renaming == old(self).is_renaming,
            final(self).rename_box == old(self).rename_box,
            final(self).key_config == old(self).key_config,
    {
        self.selected_tab_index = 0;
    }
}

impl Component for TabToolbar {
    open spec fn inv(&self) -> bool {
        toolbar_wf(self)
    }

    fn commands(&self, out: &mut Vec<CommandInfo>)
        ensures
            final(out)@.len() == old(out)@.len() + 4,
            forall|j: int| 0 <= j < old(out)@.len() ==> final(out)@[j] == old(out)@[j],
            final(out)@[old(out)@.len() as int].group@ == "-- Tab bar --"@,
            final(out)@[old(out)@.len() as int].name@ == "Open new editor [a]"@,
            final(out)@[old(out)@.len() as int + 1].name@ == "Close current editor [x,Del]"@,
            final(out)@[old(out)@.len() as int + 2].name@ == "Rename current editor [r]"@,
            final(out)@[old(out)@.len() as int + 3].name@ == "Cancel renaming [Esc]"@,
    {
        out.push(
            CommandInfo::new(
                String::from_str("-- Tab bar --"),
                String::from_str("Open new editor [a]"),
            ),
        );
        out.push(
            CommandInfo::new(
                String::from_str("-- Tab bar --"),
                String::from_str("Close current editor [x,Del]"),
            ),
        );
        out.push(
            CommandInfo::new(
                String::from_str("-- Tab bar --"),
                String::from_str("Rename current editor [r]"),
            ),
        );
        out.push(
            CommandInfo::new(
                String::from_str("-- Tab bar --"),
                String::from_str("Cancel renaming [Esc]"),
            ),
        );
    }

    /// While renaming, `Enter` commits the new name as a broadcast and `Esc`
    /// cancels; other keys edit the name box.  Otherwise `a`, `x`/`Del` and
    /// `r` open, close and rename; digits jump to that tab; the configured
    /// left/right keys and `Home`/`End` move the selection.
    fn event(&mut self, key: Key, message_queue: &mut GlobalMessageQueue) -> (r: Result<
        EventState,
        UiError,
    >)
        ensures
            final(self).tab_names == old(self).tab_names,
            final(self).key_config == old(self).key_config,
            old(self).is_renaming ==> (r matches Ok(s) && s == EventState::Consumed),
            !old(self).is_renaming ==> (r matches Ok(s) && s == (if toolbar_consumes(
                key,
                old(self).key_config,
                old(self).tab_names@.len() as int,
            ) {
                EventState::Consumed
            } else {
                EventState::NotConsumed
            })),
            old(self).is_renaming && key == Key::Enter ==> !final(self).is_renaming && final(message_queue).event_queue@.len() == old(message_queue).event_queue@.len() + 1 && (final(message_queue).event_queue@.last() matches AppMessage::Tab(TabMessage::RenameTab(i, s)) && i == old(self).selected_tab_index && s@ == old(self).rename_box.input@),
            old(self).is_renaming && key == Key::Esc ==> !final(self).is_renaming && final(message_queue).event_queue == old(message_queue).event_queue,
            !old(self).is_renaming && key == Key::Char('a') ==> final(message_queue).event_queue@ == old(message_queue).event_queue@.push(
                AppMessage::Tab(TabMessage::NewEditor),
            ),
            !old(self).is_renaming && (key == Key::Char('x') || key == Key::Delete) ==> final(message_queue).event_queue@ == old(message_queue).event_queue@.push(
                AppMessage::Tab(TabMessage::CloseCurrentEditor),
            ),
            !old(self).is_renaming && key == Key::Char('r') ==> final(self).is_renaming && final(self).selected_tab_index == old(self).selected_tab_index,
            !old(self).is_renaming && (key matches Key::Char(c) && digit_of(c) > 0 && digit_of(c)
                <= old(self).tab_names@.len() && c != 'a' && c != 'x' && c != 'r') ==> final(self).selected_tab_index == digit_of((match key {
                Key::Char(c) => c,
                _ => ' ',
            })) - 1,
            !old(self).is_renaming && key == old(self).key_config.focus_left && !(
            key matches Key::Char(_)) && key != Key::Delete ==> final(self).selected_tab_index
                == if old(self).selected_tab_index > 0 {
                old(self).selected_tab_index - 1
            } else {
                0
            },
            !old(self).is_renaming && key == old(self).key_config.focus_right && key != old(self).key_config.focus_left && !(key matches Key::Char(_)) && key != Key::Delete ==> final(self).selected_tab_index == if old(self).selected_tab_index + 1 < old(self).tab_names@.len() {
                old(self).selected_tab_index + 1
            } else {
                old(self).selected_tab_index as int
            },
            ({
                &&& !old(self).is_renaming
                &&& key == Key::End
                &&& key != old(self).key_config.focus_left
                &&& key != old(self).key_config.focus_right
                &&& old(self).tab_names@.len() > 0
            }) ==> final(self).selected_tab_index == old(self).tab_names@.len() - 1 && (
            r matches Ok(s) && s == EventState::Consumed),
            ({
                &&& !old(self).is_renaming
                &&& key == Key::Home
                &&& key != old(self).key_config.focus_left
                &&& key != old(self).key_config.focus_right
            }) ==> final(self).selected_tab_index == 0 && (r matches Ok(s) && s
                == EventState::Consumed),
            (old(self).is_renaming && key != Key::Enter && key != Key::Esc) ==> final(self).is_renaming && final(self).selected_tab_index == old(self).selected_tab_index && (
            r matches Ok(s) && s == EventState::Consumed) && (match crate::ui::textbox::textbox_step(
                crate::ui::textbox::tb_model(&old(self).rename_box),
                key,
            ) {
                Some(m) => crate::ui::textbox::tb_model(&final(self).rename_box) == m,
                None => true,
            }),
    {
        if self.is_renaming {
            match key {
                Key::Enter => {
                    let new_tab_name = self.rename_box.get_text();
                    self.is_renaming = false;
                    message_queue.push(
                        AppMessage::Tab(
                            TabMessage::RenameTab(self.selected_tab_index, new_tab_name),
                        ),
                    );
                    return Ok(EventState::Consumed);
                },
                Key::Esc => {
                    self.is_renaming = false;
                    return Ok(EventState::Consumed);
                },
                _ => {
                    let res = self.rename_box.event(key, message_queue);
                    match res {
                        Ok(_) => {},
                        Err(e) => {
                            return Err(e);
                        },
                    }
                    return Ok(EventState::Consumed);
                },
            }
        }
        if key == Key::Char('r') {
            self.rename_box.reset();
            if self.tab_names.len() > 0 {
                let current = self.tab_names[self.selected_tab_index].clone();
                self.rename_box.set_str(&current);
            }
            self.is_renaming = true;
            return Ok(EventState::Consumed);
        }
        if key == Key::Char('a') {
            message_queue.push(AppMessage::Tab(TabMessage::NewEditor));
            return Ok(EventState::Consumed);
        }
        if key == Key::Char('x') || key == Key::Delete {
            message_queue.push(AppMessage::Tab(TabMessage::CloseCurrentEditor));
            return Ok(EventState::Consumed);
        }
        if let Key::Char(c) = key {
            let tab_number = digit_of_exec(c);
            if tab_number > 0 {
                if tab_number <= self.tab_names.len() {
                    self.selected_tab_index = tab_number - 1;
                    return Ok(EventState::Consumed);
                }
                return Ok(EventState::NotConsumed);
            }
        }
        if key == self.key_config.focus_left {
            if self.selected_tab_index > 0 {
                self.selected_tab_index = self.selected_tab_index - 1;
            }
            return Ok(EventState::Consumed);
        }
        if key == self.key_config.focus_right {
            if self.tab_names.len() > 0 && self.selected_tab_index + 1 < self.tab_names.len() {
                self.selected_tab_index = self.selected_tab_index + 1;
            }
            return Ok(EventState::Consumed);
        }
        if key == Key::End {
            if self.tab_names.len() > 0 {
                self.selected_tab_index = self.tab_names.len() - 1;
            }
            return Ok(EventState::Consumed);
        }
        if key == Key::Home {
            self.selected_tab_index = 0;
            return Ok(EventState::Consumed);
        }
        Ok(EventState::NotConsumed)
    }

    fn reset(&mut self)
        ensures
            final(self).selected_tab_index == 0,
            final(self).tab_names == old(self).tab_names,
            final(self).is_renaming == old(self).is_renaming,
            final(self).rename_box == old(self).rename_box,
            final(self).key_config == old(self).key_config,
    {
        self.selected_tab_index = 0;
    }
}

/// Which half of the panel receives keys.
#[derive(Debug, Clone, Copy, PartialEq, Eq, Structural)]
pub enum Focus {
    Toolbar,
    Content,
}

/// One tab body.
pub enum TabContent {
    Records(RecordTableComponent),
    Properties(PropertiesComponent),
    Sql(SqlEditorComponent),
}

/// The title a tab body reports.
pub open spec fn body_title(c: TabContent) -> Seq<char> {
    match c {
        TabContent::Records(_) => "Records"@,
        TabContent::Properties(_) => "Properties"@,
        TabContent::Sql(e) => e.editor_name@,
    }
}

pub open spec fn tab_content_inv(c: &TabContent) -> bool {
    match c {
        TabContent::Records(rc) => record_table_inv(rc),
        TabContent::Properties(p) => properties_inv(p),
        TabContent::Sql(s) => sql_editor_inv(s),
    }
}

/// The panel: its toolbar, the tab bodies, and which half has focus.
pub struct TabPanel {
    pub key_config: KeyConfig,
    pub toolbar: TabToolbar,
    pub tab_components: Vec<TabContent>,
    pub focus: Focus,
}

/// The records and properties tabs sit first and are never removed; every
/// further tab is an editor; titles and bodies line up; the selected index
/// points at a tab.
pub open spec fn panel_inv(p: &TabPanel) -> bool {
    &&& toolbar_wf(&p.toolbar)
    &&& p.toolbar.tab_names@.len() == p.tab_components@.len()
    &&& p.tab_components@.len() >= 2
    &&& p.toolbar.selected_tab_index < p.tab_components@.len()
    &&& p.tab_components@[0] is Records
    &&& p.tab_components@[1] is Properties
    &&& (forall|i: int|
        2 <= i < p.tab_components@.len() ==> (#[trigger] p.tab_components@[i]) is Sql)
    &&& (forall|i: int|
        0 <= i < p.tab_components@.len() ==> tab_content_inv(&(#[trigger] p.tab_components@[i])))
    &&& (forall|i: int|
        0 <= i < p.tab_components@.len() ==> body_title(#[trigger] p.tab_components@[i])
            == p.toolbar.tab_names@[i]@)
}

/// The visible structure of the panel: titles, selected index, and which
/// half has focus.
pub ghost struct PanelS {
    pub names: Seq<Seq<char>>,
    pub selected: int,
    pub focus: Focus,
}

pub open spec fn panel_structure(p: &TabPanel) -> PanelS {
    PanelS {
        names: p.toolbar.tab_names@.map_values(|s: String| s@),
        selected: p.toolbar.selected_tab_index as int,
        focus: p.focus,
    }
}

/// What one broadcast does to the panel structure: a table selection jumps
/// to the records tab with content focus; tab messages open, close and
/// rename editors.
pub open spec fn panel_step(s: PanelS, m: AppMessage) -> PanelS {
    match m {
        AppMessage::Database(crate::components::databases::DatabaseEvent::TableSelected(_, _)) => {
            PanelS { selected: 0, focus: Focus::Content, ..s }
        },
        AppMessage::Tab(TabMessage::NewEditor) => PanelS {
            names: s.names.push("Sql Editor "@ + strutil::dec_digits((s.names.len() - 1) as nat)),
            ..s
        },
        AppMessage::Tab(TabMessage::CloseCurrentEditor) => if s.selected >= 2 && s.selected
            < s.names.len() {
            PanelS {
                names: s.names.remove(s.selected),
                selected: if s.selected < s.names.len() - 1 {
                    s.selected
                } else {
                    s.names.len() - 2
                },
                ..s
            }
        } else {
            s
        },
        AppMessage::Tab(TabMessage::RenameTab(i, n)) => if 2 <= i && (i as int) < s.names.len() {
            PanelS { names: s.names.update(i as int, n@), ..s }
        } else {
            s
        },
        _ => s,
    }
}

pub open spec fn panel_fold(s: PanelS, msgs: Seq<AppMessage>, upto: int) -> PanelS
    decreases upto,
{
    if upto <= 0 {
        s
    } else {
        panel_step(panel_fold(s, msgs, upto - 1), msgs[upto - 1])
    }
}

/// One drained broadcast that is a table selection.
pub open spec fn is_single_table_selected(msgs: Seq<AppMessage>) -> bool {
    msgs.len() == 1 && (msgs[0] matches AppMessage::Database(
        crate::components::databases::DatabaseEvent::TableSelected(_, _),
    ))
}

pub open spec fn selected_dbv(msgs: Seq<AppMessage>) -> crate::dbtree::DatabaseV {
    match msgs[0] {
        AppMessage::Database(crate::components::databases::DatabaseEvent::TableSelected(
            d,
            _,
        )) => d@,
        _ => arbitrary(),
    }
}

pub open spec fn selected_tbv(msgs: Seq<AppMessage>) -> crate::dbtree::TableV {
    match msgs[0] {
        AppMessage::Database(crate::components::databases::DatabaseEvent::TableSelected(
            _,
            t,
        )) => t@,
        _ => arbitrary(),
    }
}

/// The work a table selection queues: one completion refresh, one first
/// records page, one properties fetch, in that order.
pub open spec fn table_selected_requests(
    reqs: Seq<PoolRequest>,
    base: int,
    d: crate::dbtree::DatabaseV,
    t: crate::dbtree::TableV,
) -> bool {
    &&& reqs.len() == base + 3
    &&& (reqs[base] matches PoolRequest::RefreshCompletion { database, table } && (
    database matches Some(n) && n@ == d.name) && (table matches Some(tb) && tb@ == t))
    &&& (reqs[base + 1] matches PoolRequest::FetchRecords { database, table, page, filter }
        && database@ == d && table@ == t && page == 0 && filter is None)
    &&& (reqs[base + 2] matches PoolRequest::FetchProperties { database, table } && database@
        == d && table@ == t)
}

/// The law the panel obeys across any sequence of open/close events: the
/// selected index always points at a tab, and the records and properties
/// tabs are never removed.  Every panel operation preserves `panel_inv`,
/// so by induction this holds in every reachable state.
pub proof fn lemma_panel_selection_in_range(p: &TabPanel)
    requires
        panel_inv(p),
    ensures
        p.toolbar.selected_tab_index < p.tab_components@.len(),
        p.tab_components@.len() >= 2,
        p.tab_components@[0] is Records,
        p.tab_components@[1] is Properties,
{
}

impl TabPanel {
    pub fn new(key_config: KeyConfig) -> (r: TabPanel)
        ensures
            panel_inv(&r),
            r.tab_components@.len() == 2,
            r.toolbar.selected_tab_index == 0,
            r.focus == Focus::Toolbar,
    {
        let records = RecordTableComponent::new(key_config);
        let properties = PropertiesComponent::new(key_config);
        let mut names: Vec<String> = Vec::new();
        names.push(records.tab_name());
        names.push(properties.tab_name());
        let mut tabs: Vec<TabContent> = Vec::new();
        tabs.push(TabContent::Records(records));
        tabs.push(TabContent::Properties(properties));
        TabPanel { key_config, toolbar: TabToolbar::new(names, key_config), tab_components: tabs, focus: Focus::Toolbar }
    }

    /// Closes the selected tab unless it is the records or properties tab.
    pub fn close_selected_editor(&mut self)
        requires
            panel_inv(old(self)),
        ensures
            panel_inv(final(self)),
            final(self).focus == old(self).focus,
            final(self).key_config == old(self).key_config,
            final(self).toolbar.is_renaming == old(self).toolbar.is_renaming,
            final(self).toolbar.rename_box == old(self).toolbar.rename_box,
            final(self).toolbar.key_config == old(self).toolbar.key_config,
            old(self).toolbar.selected_tab_index < 2 ==> *final(self) == *old(self),
            old(self).toolbar.selected_tab_index >= 2 ==> ({
                let index = old(self).toolbar.selected_tab_index as int;
                &&& final(self).tab_components@ == old(self).tab_components@.remove(index)
                &&& final(self).toolbar.tab_names@ == old(self).toolbar.tab_names@.remove(index)
                &&& final(self).toolbar.selected_tab_index == (if index < old(self).toolbar.tab_names@.len() - 1 {
                    index
                } else {
                    old(self).toolbar.tab_names@.len() - 2
                })
            }),
    {
        let index = self.toolbar.selected_tab_index;
        if index < 2 {
            return;
        }
        self.tab_components.remove(index);
        self.toolbar.remove_tab(index);
    }

    fn change_focus(&mut self, key: Key) -> (r: EventState)
        ensures
            final(self).toolbar == old(self).toolbar,
            final(self).tab_components == old(self).tab_components,
            final(self).key_config == old(self).key_config,
            old(self).focus == Focus::Toolbar && key == old(self).key_config.focus_down ==> final(self).focus == Focus::Content && r == EventState::Consumed,
            old(self).focus == Focus::Content && key == old(self).key_config.focus_above ==> final(self).focus == Focus::Toolbar && r == EventState::Consumed,
    {
        match self.focus {
            Focus::Toolbar => {
                if key == self.key_config.focus_down {
                    self.focus = Focus::Content;
                    return EventState::Consumed;
                }
            },
            Focus::Content => {
                if key == self.key_config.focus_above {
                    self.focus = Focus::Toolbar;
                    return EventState::Consumed;
                }
            },
        }
        EventState::NotConsumed
    }

    /// Reacts to the drained broadcasts: a table selection puts the panel on
    /// the records tab with content focus; tab messages open, close and
    /// rename editors; then every tab body sees the messages.
    pub fn handle_messages(
        &mut self,
        messages: &Vec<AppMessage>,
        requests: &mut Vec<PoolRequest>,
    ) -> (r: Result<(), UiError>)
        requires
            panel_inv(old(self)),
        ensures
            r is Ok,
            panel_inv(final(self)),
            final(self).key_config == old(self).key_config,
            messages@.len() == 0 ==> final(requests)@ == old(requests)@,
            panel_structure(final(self)) == panel_fold(
                panel_structure(old(self)),
                messages@,
                messages@.len() as int,
            ),
            final(requests)@.len() >= old(requests)@.len(),
            forall|j: int|
                0 <= j < old(requests)@.len() ==> final(requests)@[j] == old(requests)@[j],
            is_single_table_selected(messages@) ==> table_selected_requests(
                final(requests)@,
                old(requests)@.len() as int,
                selected_dbv(messages@),
                selected_tbv(messages@),
            ),
    {
        let mut k: usize = 0;
        while k < messages.len()
            invariant
                panel_inv(self),
                self.key_config == old(self).key_config,
                k <= messages@.len(),
                panel_structure(self) == panel_fold(
                    panel_structure(old(self)),
                    messages@,
                    k as int,
                ),
                requests@.len() >= old(requests)@.len(),
                forall|j: int|
                    0 <= j < old(requests)@.len() ==> requests@[j] == old(requests)@[j],
                messages@.len() == 0 ==> requests@ == old(requests)@,
                is_single_table_selected(messages@) ==> (k == 0 ==> requests@ == old(requests)@),
                is_single_table_selected(messages@) && k >= 1 ==> (requests@.len() == old(requests)@.len() + 1 && (requests@.last() matches PoolRequest::RefreshCompletion {
                    database,
                    table,
                } && (database matches Some(n) && n@ == selected_dbv(messages@).name) && (
                table matches Some(tb) && tb@ == selected_tbv(messages@)))),
            decreases messages@.len() - k,
        {
            let ghost pre = panel_structure(self);
            match &messages[k] {
                AppMessage::Database(crate::components::databases::DatabaseEvent::TableSelected(
                    db,
                    t,
                )) => {
                    self.toolbar.reset();
                    self.focus = Focus::Content;
                    requests.push(
                        PoolRequest::RefreshCompletion {
                            database: Some(db.name.clone()),
                            table: Some(t.clone()),
                        },
                    );
                    proof {
                        assert(panel_structure(self).names =~= panel_step(
                            pre,
                            messages@[k as int],
                        ).names);
                    }
                },
                AppMessage::Tab(TabMessage::NewEditor) => {
                    let ghost pre_tabs = self.tab_components@;
                    let num = self.tab_components.len() - 1;
                    let tab_name = String::from_str("Sql Editor ").concat(
                        strutil::u64_to_string(num as u64).as_str(),
                    );
                    let new_editor = SqlEditorComponent::new(
                        self.key_config,
                        Some(tab_name.clone()),
                    );
                    self.tab_components.push(TabContent::Sql(new_editor));
                    self.toolbar.add_tab(tab_name);
                    proof {
                        assert(panel_structure(self).names =~= panel_step(
                            pre,
                            messages@[k as int],
                        ).names);
                        assert forall|i: int|
                            2 <= i < self.tab_components@.len() implies (
                        #[trigger] self.tab_components@[i]) is Sql by {
                            if i < pre_tabs.len() {
                                assert(self.tab_components@[i] == pre_tabs[i]);
                            }
                        }
                        assert forall|i: int|
                            0 <= i < self.tab_components@.len() implies tab_content_inv(
                            &(#[trigger] self.tab_components@[i]),
                        ) by {
                            if i < pre_tabs.len() {
                                assert(self.tab_components@[i] == pre_tabs[i]);
                            }
                        }
                        assert forall|i: int|
                            0 <= i < self.tab_components@.len() implies body_title(
                            #[trigger] self.tab_components@[i],
                        ) == self.toolbar.tab_names@[i]@ by {
                            if i < pre_tabs.len() {
                                assert(self.tab_components@[i] == pre_tabs[i]);
                            }
                        }
                    }
                },
                AppMessage::Tab(TabMessage::CloseCurrentEditor) => {
                    self.close_selected_editor();
                    proof {
                        assert(panel_structure(self).names =~= panel_step(
                            pre,
                            messages@[k as int],
                        ).names);
                    }
                },
                AppMessage::Tab(TabMessage::RenameTab(index, new_name)) => {
                    let ghost msg_name = new_name@;
                    let index = *index;
                    if index >= 2 && index < self.tab_components.len() {
                        let ghost pre_tabs = self.tab_components@;
                        let renamed = match self.tab_components.remove(index) {
                            TabContent::Sql(mut editor) => {
                                editor.update_name(new_name.clone());
                                TabContent::Sql(editor)
                            },
                            other => other,
                        };
                        self.tab_components.insert(index, renamed);
                        proof {
                            assert(self.tab_components@ =~= pre_tabs.update(
                                index as int,
                                self.tab_components@[index as int],
                            ));
                        }
                        let shown = match &self.tab_components[index] {
                            TabContent::Sql(editor) => editor.tab_name(),
                            TabContent::Records(rc) => rc.tab_name(),
                            TabContent::Properties(p) => p.tab_name(),
                        };
                        self.toolbar.rename_tab_at(index, shown);
                        proof {
                            assert forall|i: int|
                                2 <= i < self.tab_components@.len() implies (
                            #[trigger] self.tab_components@[i]) is Sql by {
                                if i != index {
                                    assert(self.tab_components@[i] == pre_tabs[i]);
                                }
                            }
                            assert forall|i: int|
                                0 <= i < self.tab_components@.len() implies tab_content_inv(
                                &(#[trigger] self.tab_components@[i]),
                            ) by {
                                if i != index {
                                    assert(self.tab_components@[i] == pre_tabs[i]);
                                }
                            }
                            assert forall|i: int|
                                0 <= i < self.tab_components@.len() implies body_title(
                                #[trigger] self.tab_components@[i],
                            ) == self.toolbar.tab_names@[i]@ by {
                                if i != index {
                                    assert(self.tab_components@[i] == pre_tabs[i]);
                                }
                            }
                            assert(panel_structure(self).names =~= panel_step(
                                pre,
                                messages@[k as int],
                            ).names);
                        }
                    } else {
                        proof {
                            assert(panel_structure(self).names =~= panel_step(
                                pre,
                                messages@[k as int],
                            ).names);
                        }
                    }
                },
                _ => {},
            }
            k = k + 1;
            proof {
                assert(panel_structure(self).names =~= panel_fold(
                    panel_structure(old(self)),
                    messages@,
                    k as int,
                ).names);
            }
        }
        let ghost mid_structure = panel_structure(self);
        let ghost req_mid = requests@;
        let mut t: usize = 0;
        let n = self.tab_components.len();
        while t < n
            invariant
                panel_inv(self),
                self.key_config == old(self).key_config,
                n == self.tab_components@.len(),
                t <= n,
                n >= 2,
                panel_structure(self) == mid_structure,
                req_mid.len() >= old(requests)@.len(),
                forall|j: int| 0 <= j < old(requests)@.len() ==> req_mid[j] == old(requests)@[j],
                messages@.len() == 0 ==> requests@ == old(requests)@,
                requests@.len() >= req_mid.len(),
                forall|j: int| 0 <= j < req_mid.len() ==> requests@[j] == req_mid[j],
                is_single_table_selected(messages@) ==> (requests@.len() == req_mid.len() + (
                if t as int >= 2 {
                    2int
                } else {
                    t as int
                })),
                is_single_table_selected(messages@) && t >= 1 ==> (requests@[req_mid.len() as int] matches PoolRequest::FetchRecords {
                    database,
                    table,
                    page,
                    filter,
                } && database@ == selected_dbv(messages@) && table@ == selected_tbv(messages@)
                    && page == 0 && filter is None),
                is_single_table_selected(messages@) && t >= 2 ==> (requests@[req_mid.len() as int + 1] matches PoolRequest::FetchProperties {
                    database,
                    table,
                } && database@ == selected_dbv(messages@) && table@ == selected_tbv(messages@)),
            decreases n - t,
        {
            let ghost pre_tabs = self.tab_components@;
            let mut body = self.tab_components.remove(t);
            let res = tab_body_handle_messages(&mut body, messages, requests);
            self.tab_components.insert(t, body);
            proof {
                assert(self.tab_components@ =~= pre_tabs.update(
                    t as int,
                    self.tab_components@[t as int],
                ));
                assert forall|i: int|
                    0 <= i < self.tab_components@.len() implies body_title(
                    #[trigger] self.tab_components@[i],
                ) == self.toolbar.tab_names@[i]@ by {
                    if i != t {
                        assert(self.tab_components@[i] == pre_tabs[i]);
                    }
                }
                assert forall|i: int|
                    0 <= i < self.tab_components@.len() implies tab_content_inv(
                    &(#[trigger] self.tab_components@[i]),
                ) by {
                    if i != t {
                        assert(self.tab_components@[i] == pre_tabs[i]);
                    }
                }
                assert forall|i: int|
                    2 <= i < self.tab_components@.len() implies (
                #[trigger] self.tab_components@[i]) is Sql by {
                    if i != t {
                        assert(self.tab_components@[i] == pre_tabs[i]);
                    }
                }
            }
            match res {
                Ok(()) => {},
                Err(e) => {
                    return Err(e);
                },
            }
            t = t + 1;
        }
        Ok(())
    }

    /// Returns the panel to its freshly-built shape: open editor tabs are
    /// dropped, the two fixed tabs are cleared, the selection and focus go
    /// back to the toolbar's first tab.
    pub fn reset(&mut self)
        requires
            panel_inv(old(self)),
        ensures
            panel_inv(final(self)),
            final(self).tab_components@.len() == 2,
            final(self).toolbar.selected_tab_index == 0,
            !final(self).toolbar.is_renaming,
            final(self).focus == Focus::Toolbar,
            final(self).key_config == old(self).key_config,
            final(self).toolbar.tab_names@.map_values(|s: String| s@) == seq![
                "Records"@,
                "Properties"@,
            ],
            (final(self).tab_components@[0] matches TabContent::Records(rc)
                && rc.table.rows@.len() == 0 && rc.database is None),
            (final(self).tab_components@[1] matches TabContent::Properties(p)
                && p.column_table.rows@.len() == 0 && p.constraint_table.rows@.len() == 0
                && p.foreign_key_table.rows@.len() == 0 && p.index_table.rows@.len() == 0),
    {
        self.toolbar.reset();
        self.toolbar.is_renaming = false;
        self.focus = Focus::Toolbar;
        let ghost pre_tabs = self.tab_components@;
        let ghost pre_names = self.toolbar.tab_names@;
        self.tab_components.truncate(2);
        self.toolbar.tab_names.truncate(2);
        proof {
            assert forall|i: int|
                0 <= i < self.tab_components@.len() implies body_title(
                #[trigger] self.tab_components@[i],
            ) == self.toolbar.tab_names@[i]@ by {
                assert(self.tab_components@[i] == pre_tabs[i]);
                assert(self.toolbar.tab_names@[i] == pre_names[i]);
            }
            assert forall|i: int|
                0 <= i < self.tab_components@.len() implies tab_content_inv(
                &(#[trigger] self.tab_components@[i]),
            ) by {
                assert(self.tab_components@[i] == pre_tabs[i]);
            }
        }
        let ghost names2 = self.toolbar.tab_names@;
        let n = self.tab_components.len();
        let mut t: usize = 0;
        while t < n
            invariant
                panel_inv(self),
                n == self.tab_components@.len(),
                n == 2,
                self.toolbar.selected_tab_index == 0,
                !self.toolbar.is_renaming,
                self.focus == Focus::Toolbar,
                self.key_config == old(self).key_config,
                self.toolbar.tab_names@ == names2,
                t <= n,
                t >= 1 ==> (self.tab_components@[0] matches TabContent::Records(rc)
                    && rc.table.rows@.len() == 0 && rc.database is None),
                t >= 2 ==> (self.tab_components@[1] matches TabContent::Properties(p)
                    && p.column_table.rows@.len() == 0 && p.constraint_table.rows@.len() == 0
                    && p.foreign_key_table.rows@.len() == 0 && p.index_table.rows@.len() == 0),
            decreases n - t,
        {
            let ghost pre_tabs = self.tab_components@;
            let mut body = self.tab_components.remove(t);
            reset_tab_body(&mut body);
            self.tab_components.insert(t, body);
            proof {
                assert(self.tab_components@ =~= pre_tabs.update(
                    t as int,
                    self.tab_components@[t as int],
                ));
                assert forall|i: int|
                    0 <= i < self.tab_components@.len() implies body_title(
                    #[trigger] self.tab_components@[i],
                ) == self.toolbar.tab_names@[i]@ by {
                    if i != t {
                        assert(self.tab_components@[i] == pre_tabs[i]);
                    }
                }
                assert forall|i: int|
                    0 <= i < self.tab_components@.len() implies tab_content_inv(
                    &(#[trigger] self.tab_components@[i]),
                ) by {
                    if i != t {
                        assert(self.tab_components@[i] == pre_tabs[i]);
                    }
                }
                assert forall|i: int|
                    2 <= i < self.tab_components@.len() implies (
                #[trigger] self.tab_components@[i]) is Sql by {
                    if i != t {
                        assert(self.tab_components@[i] == pre_tabs[i]);
                    }
                }
            }
            t = t + 1;
        }
        proof {
            assert(self.toolbar.tab_names@.map_values(|s: String| s@) =~= seq![
                "Records"@,
                "Properties"@,
            ]);
        }
    }
}

/// Returns one tab body to its freshly-built state.
fn reset_tab_body(body: &mut TabContent)
    requires
        tab_content_inv(old(body)),
    ensures
        tab_content_inv(final(body)),
        body_title(*final(body)) == body_title(*old(body)),
        (*final(body)) is Records <==> (*old(body)) is Records,
        (*final(body)) is Properties <==> (*old(body)) is Properties,
        (*final(body)) is Sql <==> (*old(body)) is Sql,
        (*final(body) matches TabContent::Records(rc) ==> rc.table.rows@.len() == 0
            && crate::ui::textbox::tb_model(&rc.filter).input.len() == 0 && rc.database is None
            && rc.dtable is None),
        (*final(body) matches TabContent::Properties(p) ==> p.column_table.rows@.len() == 0
            && p.constraint_table.rows@.len() == 0 && p.foreign_key_table.rows@.len() == 0
            && p.index_table.rows@.len() == 0 && p.focus
            == crate::components::properties::Focus::Column),
        (*final(body) matches TabContent::Sql(s) ==> crate::ui::textarea::ta_model(
            &s.text_area,
        ).lines.len() == 0 && s.table.rows@.len() == 0 && s.query_result is None && s.focus
            == crate::components::sql_editor::Focus::Editor),
{
    match body {
        TabContent::Records(rc) => rc.reset(),
        TabContent::Properties(p) => {
            p.column_table.reset();
            p.constraint_table.reset();
            p.foreign_key_table.reset();
            p.index_table.reset();
            p.focus = crate::components::properties::Focus::Column;
        },
        TabContent::Sql(s) => {
            s.text_area.reset();
            s.table.reset();
            s.query_result = None;
            s.focus = crate::components::sql_editor::Focus::Editor;
        },
    }
}

/// Routes the drained broadcasts into one tab body, collecting the fetches
/// it asks for.
fn tab_body_handle_messages(
    body: &mut TabContent,
    messages: &Vec<AppMessage>,
    requests: &mut Vec<PoolRequest>,
) -> (r: Result<(), UiError>)
    requires
        tab_content_inv(old(body)),
    ensures
        r is Ok,
        tab_content_inv(final(body)),
        messages@.len() == 0 ==> *final(body) == *old(body) && final(requests)@ == old(
            requests,
        )@,
        body_title(*final(body)) == body_title(*old(body)),
        (*final(body)) is Records <==> (*old(body)) is Records,
        (*final(body)) is Properties <==> (*old(body)) is Properties,
        (*final(body)) is Sql <==> (*old(body)) is Sql,
        final(requests)@.len() >= old(requests)@.len(),
        forall|j: int|
            0 <= j < old(requests)@.len() ==> final(requests)@[j] == old(requests)@[j],
        is_single_table_selected(messages@) ==> (match *old(body) {
            TabContent::Records(_) => final(requests)@.len() == old(requests)@.len() + 1 && (
            final(requests)@.last() matches PoolRequest::FetchRecords {
                database,
                table,
                page,
                filter,
            } && database@ == selected_dbv(messages@) && table@ == selected_tbv(messages@)
                && page == 0 && filter is None),
            TabContent::Properties(_) => final(requests)@.len() == old(requests)@.len() + 1 && (
            final(requests)@.last() matches PoolRequest::FetchProperties { database, table }
                && database@ == selected_dbv(messages@) && table@ == selected_tbv(messages@)),
            TabContent::Sql(_) => final(requests)@ == old(requests)@,
        }),
{
    let mut k: usize = 0;
    while k < messages.len()
        invariant
            tab_content_inv(body),
            messages@.len() == 0 ==> *body == *old(body) && requests@ == old(requests)@,
            body_title(*body) == body_title(*old(body)),
            (*body) is Records <==> (*old(body)) is Records,
            (*body) is Properties <==> (*old(body)) is Properties,
            (*body) is Sql <==> (*old(body)) is Sql,
            k <= messages@.len(),
            requests@.len() >= old(requests)@.len(),
            forall|j: int|
                0 <= j < old(requests)@.len() ==> requests@[j] == old(requests)@[j],
            is_single_table_selected(messages@) ==> (k == 0 ==> requests@ == old(requests)@),
            is_single_table_selected(messages@) && k >= 1 ==> (match *old(body) {
                TabContent::Records(_) => requests@.len() == old(requests)@.len() + 1 && (
                requests@.last() matches PoolRequest::FetchRecords {
                    database,
                    table,
                    page,
                    filter,
                } && database@ == selected_dbv(messages@) && table@ == selected_tbv(messages@)
                    && page == 0 && filter is None),
                TabContent::Properties(_) => requests@.len() == old(requests)@.len() + 1 && (
                requests@.last() matches PoolRequest::FetchProperties { database, table }
                    && database@ == selected_dbv(messages@) && table@ == selected_tbv(
                    messages@,
                )),
                TabContent::Sql(_) => requests@ == old(requests)@,
            }),
        decreases messages@.len() - k,
    {
        match &messages[k] {
            AppMessage::Database(crate::components::databases::DatabaseEvent::TableSelected(
                db,
                t,
            )) => {
                match body {
                    TabContent::Records(rc) => {
                        rc.on_table_selected(db, t, requests);
                    },
                    TabContent::Properties(p) => {
                        p.on_table_selected(db, t, requests);
                    },
                    TabContent::Sql(_) => {},
                }
            },
            _ => {},
        }
        k = k + 1;
    }
    Ok(())
}

impl Component for TabPanel {
    open spec fn inv(&self) -> bool {
        panel_inv(self)
    }

    fn commands(&self, out: &mut Vec<CommandInfo>)
        ensures
            final(out)@.len() == old(out)@.len() + 4,
            forall|j: int| 0 <= j < old(out)@.len() ==> final(out)@[j] == old(out)@[j],
            final(out)@[old(out)@.len() as int].name@ == "Open new editor [a]"@,
    {
        self.toolbar.commands(out);
    }

    /// The focused half sees the key first; an unconsumed key may switch
    /// focus between toolbar and content.
    fn event(&mut self, key: Key, message_queue: &mut GlobalMessageQueue) -> (r: Result<
        EventState,
        UiError,
    >)
        ensures
            panel_inv(final(self)),
            final(self).key_config == old(self).key_config,
            (old(self).focus == Focus::Toolbar && !old(self).toolbar.is_renaming && key
                == Key::Char('a')) ==> final(message_queue).event_queue@ == old(message_queue).event_queue@.push(AppMessage::Tab(TabMessage::NewEditor)) && (r matches Ok(s) && s
                == EventState::Consumed),
            (old(self).focus == Focus::Toolbar && !old(self).toolbar.is_renaming && (key
                == Key::Char('x') || key == Key::Delete)) ==> final(message_queue).event_queue@ == old(message_queue).event_queue@.push(
                AppMessage::Tab(TabMessage::CloseCurrentEditor),
            ) && (r matches Ok(s) && s == EventState::Consumed),
            ({
                &&& old(self).focus == Focus::Toolbar
                &&& !old(self).toolbar.is_renaming
                &&& key matches Key::Char(c)
                &&& digit_of(c) > 0
                &&& digit_of(c) <= old(self).toolbar.tab_names@.len()
                &&& c != 'a'
                &&& c != 'x'
                &&& c != 'r'
            }) ==> final(self).toolbar.selected_tab_index == digit_of((match key {
                Key::Char(c) => c,
                _ => ' ',
            })) - 1 && (r matches Ok(s) && s == EventState::Consumed),
            ({
                &&& old(self).focus == Focus::Toolbar
                &&& !old(self).toolbar.is_renaming
                &&& key == old(self).key_config.focus_down
                &&& !toolbar_consumes(
                    key,
                    old(self).toolbar.key_config,
                    old(self).toolbar.tab_names@.len() as int,
                )
            }) ==> final(self).focus == Focus::Content && (r matches Ok(s) && s
                == EventState::Consumed),
    {
        match self.focus {
            Focus::Toolbar => {
                let ghost names_len = self.toolbar.tab_names@.len();
                let res = self.toolbar.event(key, message_queue);
                match res {
                    Ok(s) => {
                        if s.is_consumed() {
                            return Ok(EventState::Consumed);
                        }
                    },
                    Err(e) => {
                        return Err(e);
                    },
                }
            },
            Focus::Content => {
                let index = self.toolbar.selected_tab_index;
                let ghost pre_tabs = self.tab_components@;
                let mut body = self.tab_components.remove(index);
                let res = tab_body_event(&mut body, key, message_queue);
                self.tab_components.insert(index, body);
                proof {
                    assert(self.tab_components@ =~= pre_tabs.update(
                        index as int,
                        self.tab_components@[index as int],
                    ));
                    assert forall|i: int|
                        0 <= i < self.tab_components@.len() implies body_title(
                        #[trigger] self.tab_components@[i],
                    ) == self.toolbar.tab_names@[i]@ by {
                        if i != index {
                            assert(self.tab_components@[i] == pre_tabs[i]);
                        }
                    }
                    assert forall|i: int|
                        0 <= i < self.tab_components@.len() implies tab_content_inv(
                        &(#[trigger] self.tab_components@[i]),
                    ) by {
                        if i != index {
                            assert(self.tab_components@[i] == pre_tabs[i]);
                        }
                    }
                    assert forall|i: int|
                        2 <= i < self.tab_components@.len() implies (
                    #[trigger] self.tab_components@[i]) is Sql by {
                        if i != index {
                            assert(self.tab_components@[i] == pre_tabs[i]);
                        }
                    }
                }
                match res {
                    Ok(s) => {
                        if s.is_consumed() {
                            return Ok(EventState::Consumed);
                        }
                    },
                    Err(e) => {
                        return Err(e);
                    },
                }
            },
        }
        if self.change_focus(key).is_consumed() {
            return Ok(EventState::Consumed);
        }
        Ok(EventState::NotConsumed)
    }

    fn reset(&mut self) {
        self.toolbar.reset();
    }
}

/// Hands one key to a tab body.
fn tab_body_event(body: &mut TabContent, key: Key, message_queue: &mut GlobalMessageQueue) -> (r:
    Result<EventState, UiError>)
    requires
        tab_content_inv(old(body)),
    ensures
        tab_content_inv(final(body)),
        body_title(*final(body)) == body_title(*old(body)),
        (*final(body)) is Records <==> (*old(body)) is Records,
        (*final(body)) is Properties <==> (*old(body)) is Properties,
        (*final(body)) is Sql <==> (*old(body)) is Sql,
{
    match body {
        TabContent::Records(rc) => rc.event(key, message_queue),
        TabContent::Properties(p) => p.event(key, message_queue),
        TabContent::Sql(s) => s.event(key, message_queue),
    }
}

} // verus!
