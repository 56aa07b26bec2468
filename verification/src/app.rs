//! The message bus and the application shell's state: broadcast messages,
//! the per-tick queue, global focus, and the requests the engine hands to
//! the database layer.

use vstd::prelude::*;
use crate::config::Connection;
use crate::dbtree::{Database, Table};

verus! {

use crate::components::databases::{databases_inv, DatabaseEvent, DatabasesComponent};
use crate::components::error::ErrorComponent;
use crate::components::tab::{panel_inv, TabMessage, TabPanel};
use crate::components::{Component, EventState};
use crate::config::KeyConfig;
use crate::err::UiError;
use crate::event::Key;

/// A connection-picker broadcast.
pub enum ConnectionEvent {
    ConnectionChanged(Option<Connection>),
}

/// A broadcast message.  Receivers match on the kinds they recognize and
/// ignore the rest, which keeps the taxonomy extensible.
pub enum AppMessage {
    Connection(ConnectionEvent),
    Database(DatabaseEvent),
    Tab(TabMessage),
    /// A database request a component wants performed.
    Pool(PoolRequest),
}

/// Messages queued while a key event is handled; drained once per key and
/// fanned out to every component.
pub struct GlobalMessageQueue {
    pub event_queue: Vec<AppMessage>,
}

impl GlobalMessageQueue {
    pub fn new() -> (r: GlobalMessageQueue)
        ensures
            r.event_queue@.len() == 0,
    {
        GlobalMessageQueue { event_queue: Vec::new() }
    }

    /// Takes all queued messages, leaving the queue empty.
    pub fn drain(&mut self) -> (r: Vec<AppMessage>)
        ensures
            r@ == old(self).event_queue@,
            final(self).event_queue@.len() == 0,
    {
        let mut out: Vec<AppMessage> = Vec::new();
        core::mem::swap(&mut out, &mut self.event_queue);
        out
    }

    /// Appends a message to the queue.
    pub fn push(&mut self, message: AppMessage)
        ensures
            final(self).event_queue@ == old(self).event_queue@.push(message),
    {
        self.event_queue.push(message);
    }
}

/// Which top-level component receives keys.
#[derive(Debug, Clone, Copy, PartialEq, Eq, Structural)]
pub enum Focus {
    DatabaseList,
    TabPanel,
    ConnectionList,
}

/// Database work the engine asks its caller to perform.  The caller runs
/// the request against the pool and feeds the outcome back through the
/// matching `apply` function.
pub enum PoolRequest {
    /// Close the current pool, then open one for this connection.
    OpenPool(Connection),
    /// Fetch the database list; a pinned connection lists only its database.
    FetchDatabases { pinned: Option<String> },
    /// Fetch one page of records.
    FetchRecords { database: Database, table: Table, page: u16, filter: Option<String> },
    /// Fetch columns, constraints, foreign keys and indexes of a table.
    FetchProperties { database: Database, table: Table },
    /// Run an ad-hoc statement from the selected editor tab.
    ExecuteQuery { query: String },
    /// Rebuild the completion sources from the pool.
    RefreshCompletion { database: Option<String>, table: Option<Table> },
}

/// The application shell: global focus, the sidebar, the tab panel, the
/// error overlay, and the per-tick message queue.
pub struct App {
    pub focus: Focus,
    pub tab_panel: TabPanel,
    pub databases: DatabasesComponent,
    pub error: ErrorComponent,
    pub message_queue: GlobalMessageQueue,
    pub key_config: KeyConfig,
    /// Width of the sidebar, in percent of the screen.
    pub left_main_chunk_percentage: u16,
}

pub open spec fn app_inv(a: &App) -> bool {
    &&& panel_inv(&a.tab_panel)
    &&& databases_inv(&a.databases)
    &&& a.error.key_config == a.key_config
    &&& a.left_main_chunk_percentage <= 70
}

/// Where the focus lands after a run of broadcasts: a connection change
/// moves to the sidebar, a table selection to the panel.
pub open spec fn focus_fold(f: Focus, msgs: Seq<AppMessage>, upto: int) -> Focus
    decreases upto,
{
    if upto <= 0 {
        f
    } else {
        match msgs[upto - 1] {
            AppMessage::Connection(ConnectionEvent::ConnectionChanged(Some(_))) => {
                Focus::DatabaseList
            },
            AppMessage::Database(DatabaseEvent::TableSelected(_, _)) => Focus::TabPanel,
            _ => focus_fold(f, msgs, upto - 1),
        }
    }
}

/// The pool requests queued directly as messages, in order.
pub open spec fn pool_requests_of(msgs: Seq<AppMessage>, upto: int) -> Seq<PoolRequest>
    decreases upto,
{
    if upto <= 0 {
        Seq::empty()
    } else {
        pool_requests_of(msgs, upto - 1) + (match msgs[upto - 1] {
            AppMessage::Pool(p) => seq![p],
            _ => Seq::empty(),
        })
    }
}

/// The broadcasts that fan out to the components: everything that is not a
/// pool request.
pub open spec fn non_pool_of(msgs: Seq<AppMessage>, upto: int) -> Seq<AppMessage>
    decreases upto,
{
    if upto <= 0 {
        Seq::empty()
    } else {
        non_pool_of(msgs, upto - 1) + (match msgs[upto - 1] {
            AppMessage::Pool(_) => Seq::empty(),
            m => seq![m],
        })
    }
}

impl App {
    pub fn new(key_config: KeyConfig) -> (r: App)
        ensures
            app_inv(&r),
            r.focus == Focus::ConnectionList,
            r.left_main_chunk_percentage == 15,
            r.message_queue.event_queue@.len() == 0,
    {
        App {
            focus: Focus::ConnectionList,
            tab_panel: TabPanel::new(key_config),
            databases: DatabasesComponent::new(key_config),
            error: ErrorComponent::new(key_config),
            message_queue: GlobalMessageQueue::new(),
            key_config,
            left_main_chunk_percentage: 15,
        }
    }

    /// The connection picker chose an entry; broadcast it.
    pub fn connection_chosen(&mut self, conn: Connection)
        ensures
            final(self).message_queue.event_queue@ == old(self).message_queue.event_queue@.push(
                AppMessage::Connection(ConnectionEvent::ConnectionChanged(Some(conn))),
            ),
            final(self).focus == old(self).focus,
            final(self).tab_panel == old(self).tab_panel,
            final(self).databases == old(self).databases,
            final(self).left_main_chunk_percentage == old(self).left_main_chunk_percentage,
    {
        self.message_queue.push(
            AppMessage::Connection(ConnectionEvent::ConnectionChanged(Some(conn))),
        );
    }

    /// Widens or narrows the sidebar in five-percent steps, clamped to
    /// `[0, 70]`.
    pub fn extend_or_shorten_widget_width(&mut self, key: Key) -> (r: EventState)
        requires
            app_inv(old(self)),
        ensures
            app_inv(final(self)),
            final(self).tab_panel == old(self).tab_panel,
            final(self).databases == old(self).databases,
            final(self).error == old(self).error,
            final(self).message_queue == old(self).message_queue,
            final(self).focus == old(self).focus,
            final(self).key_config == old(self).key_config,
            key == old(self).key_config.extend_or_shorten_widget_width_to_left ==> final(self).left_main_chunk_percentage == if old(self).left_main_chunk_percentage >= 5 {
                old(self).left_main_chunk_percentage - 5
            } else {
                0
            } && r == EventState::Consumed,
            (key == old(self).key_config.extend_or_shorten_widget_width_to_right && key != old(self).key_config.extend_or_shorten_widget_width_to_left) ==> final(self).left_main_chunk_percentage == if old(self).left_main_chunk_percentage + 5 <= 70 {
                old(self).left_main_chunk_percentage + 5
            } else {
                70
            } && r == EventState::Consumed,
            (key != old(self).key_config.extend_or_shorten_widget_width_to_left && key != old(self).key_config.extend_or_shorten_widget_width_to_right) ==> *final(self) == *old(self)
                && r == EventState::NotConsumed,
    {
        if key == self.key_config.extend_or_shorten_widget_width_to_left {
            self.left_main_chunk_percentage = self.left_main_chunk_percentage.saturating_sub(5);
            return EventState::Consumed;
        }
        if key == self.key_config.extend_or_shorten_widget_width_to_right {
            let widened = self.left_main_chunk_percentage + 5;
            self.left_main_chunk_percentage = if widened <= 70 {
                widened
            } else {
                70
            };
            return EventState::Consumed;
        }
        EventState::NotConsumed
    }

    /// Global focus movement: the connections key always jumps to the
    /// picker; `Enter` leaves the picker for the sidebar; the focus keys
    /// step between sidebar and panel.
    pub fn move_focus(&mut self, key: Key) -> (r: EventState)
        requires
            app_inv(old(self)),
        ensures
            app_inv(final(self)),
            final(self).tab_panel == old(self).tab_panel,
            final(self).databases == old(self).databases,
            final(self).error == old(self).error,
            final(self).message_queue == old(self).message_queue,
            final(self).left_main_chunk_percentage == old(self).left_main_chunk_percentage,
            final(self).key_config == old(self).key_config,
            key == old(self).key_config.focus_connections ==> final(self).focus
                == Focus::ConnectionList && r == EventState::Consumed,
            (key != old(self).key_config.focus_connections && old(self).focus
                == Focus::ConnectionList && key == old(self).key_config.enter) ==> final(self).focus == Focus::DatabaseList && r == EventState::Consumed,
            (key != old(self).key_config.focus_connections && old(self).focus == Focus::TabPanel
                && key == old(self).key_config.focus_left) ==> final(self).focus
                == Focus::DatabaseList && r == EventState::Consumed,
    {
        if key == self.key_config.focus_connections {
            self.focus = Focus::ConnectionList;
            return EventState::Consumed;
        }
        match self.focus {
            Focus::ConnectionList => {
                if key == self.key_config.enter {
                    self.focus = Focus::DatabaseList;
                    return EventState::Consumed;
                }
            },
            Focus::DatabaseList => {
                if key == self.key_config.focus_right && self.databases.tree_focused() {
                    self.focus = Focus::TabPanel;
                    return EventState::Consumed;
                }
            },
            Focus::TabPanel => {
                if key == self.key_config.focus_left {
                    self.focus = Focus::DatabaseList;
                    return EventState::Consumed;
                }
            },
        }
        EventState::NotConsumed
    }

    /// App-level reactions to the drained broadcasts: a new connection moves
    /// focus to the sidebar and asks for the pool swap; a table selection
    /// moves focus to the panel.
    fn handle_app_messages(&mut self, messages: &Vec<AppMessage>, requests: &mut Vec<PoolRequest>)
        requires
            app_inv(old(self)),
        ensures
            app_inv(final(self)),
            final(self).message_queue == old(self).message_queue,
            final(self).tab_panel == old(self).tab_panel,
            final(self).databases == old(self).databases,
            final(self).error == old(self).error,
            final(self).key_config == old(self).key_config,
            final(self).left_main_chunk_percentage == old(self).left_main_chunk_percentage,
            final(self).focus == focus_fold(old(self).focus, messages@, messages@.len() as int),
            final(requests)@.len() >= old(requests)@.len(),
            forall|j: int|
                0 <= j < old(requests)@.len() ==> final(requests)@[j] == old(requests)@[j],
            (forall|i: int|
                0 <= i < messages@.len() ==> !crate::components::databases::is_conn_some(
                    #[trigger] messages@[i],
                )) ==> final(requests)@ == old(requests)@,
            (messages@.len() == 1 && crate::components::databases::is_conn_some(messages@[0]))
                ==> final(requests)@.len() == old(requests)@.len() + 1 && (final(requests)@.last() matches PoolRequest::OpenPool(c) && (match messages@[0] {
                AppMessage::Connection(ConnectionEvent::ConnectionChanged(Some(c2))) => c.name@
                    == c2.name@ && c.kind == c2.kind && crate::dbtree::view_opt(c.database)
                    == crate::dbtree::view_opt(c2.database),
                _ => false,
            })),
    {
        let mut k: usize = 0;
        while k < messages.len()
            invariant
                app_inv(self),
                self.message_queue == old(self).message_queue,
                self.tab_panel == old(self).tab_panel,
                self.databases == old(self).databases,
                self.error == old(self).error,
                self.key_config == old(self).key_config,
                self.left_main_chunk_percentage == old(self).left_main_chunk_percentage,
                self.focus == focus_fold(old(self).focus, messages@, k as int),
                k <= messages@.len(),
                requests@.len() >= old(requests)@.len(),
                forall|j: int|
                    0 <= j < old(requests)@.len() ==> requests@[j] == old(requests)@[j],
                (forall|i: int|
                    0 <= i < k ==> !crate::components::databases::is_conn_some(
                        #[trigger] messages@[i],
                    )) ==> requests@ == old(requests)@,
                (messages@.len() == 1 && crate::components::databases::is_conn_some(
                    messages@[0],
                ) && k >= 1) ==> requests@.len() == old(requests)@.len() + 1 && (
                requests@.last() matches PoolRequest::OpenPool(c) && (match messages@[0] {
                    AppMessage::Connection(ConnectionEvent::ConnectionChanged(Some(c2))) => c.name@ == c2.name@ && c.kind == c2.kind && crate::dbtree::view_opt(c.database) == crate::dbtree::view_opt(c2.database),
                    _ => false,
                })),
            decreases messages@.len() - k,
        {
            match &messages[k] {
                AppMessage::Connection(ConnectionEvent::ConnectionChanged(conn_opt)) => {
                    if let Some(conn) = conn_opt {
                        requests.push(PoolRequest::OpenPool(conn.clone()));
                        self.focus = Focus::DatabaseList;
                    }
                },
                AppMessage::Database(DatabaseEvent::TableSelected(_, _)) => {
                    self.focus = Focus::TabPanel;
                },
                _ => {},
            }
            k = k + 1;
        }
    }

    /// Drains the queue once and fans the messages out to every component,
    /// collecting the database work they ask for.
    pub fn dispatch_messages(&mut self) -> (r: Result<Vec<PoolRequest>, UiError>)
        requires
            app_inv(old(self)),
        ensures
            r is Ok,
            app_inv(final(self)),
            final(self).message_queue.event_queue@.len() == 0,
            final(self).key_config == old(self).key_config,
            final(self).error == old(self).error,
            final(self).left_main_chunk_percentage == old(self).left_main_chunk_percentage,
            ({
                let queued = old(self).message_queue.event_queue@;
                let n = queued.len() as int;
                &&& final(self).focus == focus_fold(old(self).focus, non_pool_of(queued, n), non_pool_of(queued, n).len() as int)
                &&& crate::components::tab::panel_structure(&final(self).tab_panel)
                    == crate::components::tab::panel_fold(
                    crate::components::tab::panel_structure(&old(self).tab_panel),
                    non_pool_of(queued, n),
                    non_pool_of(queued, n).len() as int,
                )
                &&& (exists|i: int|
                    0 <= i < non_pool_of(queued, n).len()
                        && crate::components::databases::is_conn_some(
                        #[trigger] non_pool_of(queued, n)[i],
                    )) ==> crate::components::databases::sidebar_reset(&final(self).databases)
                &&& (forall|i: int|
                    0 <= i < non_pool_of(queued, n).len()
                        ==> !crate::components::databases::is_conn_some(
                        #[trigger] non_pool_of(queued, n)[i],
                    )) ==> final(self).databases == old(self).databases
                &&& (r matches Ok(reqs) && reqs@.len() >= pool_requests_of(queued, n).len()
                    && (forall|j: int|
                    0 <= j < pool_requests_of(queued, n).len() ==> #[trigger] reqs@[j]
                        == pool_requests_of(queued, n)[j]))
            }),
            old(self).message_queue.event_queue@.len() == 0 ==> (r matches Ok(reqs)
                && reqs@.len() == 0) && final(self).focus == old(self).focus && final(self).databases == old(self).databases,
    {
        let ghost queued = self.message_queue.event_queue@;
        let drained = self.message_queue.drain();
        let mut requests: Vec<PoolRequest> = Vec::new();
        let mut broadcast: Vec<AppMessage> = Vec::new();
        let mut drained = drained;
        let ghost total = queued.len() as int;
        let ghost mut done: int = 0;
        while drained.len() > 0
            invariant
                app_inv(self),
                self.focus == old(self).focus,
                self.tab_panel == old(self).tab_panel,
                self.databases == old(self).databases,
                self.error == old(self).error,
                self.key_config == old(self).key_config,
                self.left_main_chunk_percentage == old(self).left_main_chunk_percentage,
                self.message_queue.event_queue@.len() == 0,
                0 <= done <= total,
                total == queued.len(),
                drained@ == queued.subrange(done, total),
                requests@ == pool_requests_of(queued, done),
                broadcast@ == non_pool_of(queued, done),
            decreases drained@.len(),
        {
            let m = drained.remove(0);
            proof {
                assert(m == queued[done]);
            }
            match m {
                AppMessage::Pool(req) => {
                    requests.push(req);
                },
                other => {
                    broadcast.push(other);
                },
            }
            proof {
                done = done + 1;
                assert(drained@ =~= queued.subrange(done, total));
                assert(requests@ =~= pool_requests_of(queued, done));
                assert(broadcast@ =~= non_pool_of(queued, done));
            }
        }
        self.handle_app_messages(&broadcast, &mut requests);
        let res = self.databases.handle_messages(&broadcast, &mut requests);
        match res {
            Ok(()) => {},
            Err(e) => {
                return Err(e);
            },
        }
        let res = self.tab_panel.handle_messages(&broadcast, &mut requests);
        match res {
            Ok(()) => {},
            Err(e) => {
                return Err(e);
            },
        }
        Ok(requests)
    }

    /// Routes one key: the error overlay first, then the focused component,
    /// then the width keys.
    fn components_event(&mut self, key: Key) -> (r: Result<EventState, UiError>)
        requires
            app_inv(old(self)),
        ensures
            app_inv(final(self)),
            old(self).error.visible ==> final(self).focus == old(self).focus && final(self).databases == old(self).databases && final(self).tab_panel == old(self).tab_panel && final(self).message_queue == old(self).message_queue && final(self).left_main_chunk_percentage == old(self).left_main_chunk_percentage && final(self).key_config == old(self).key_config && (r matches Ok(s) && s == EventState::Consumed) && (if key == old(self).key_config.exit_popup {
                !final(self).error.visible && final(self).error.error@.len() == 0
            } else {
                final(self).error == old(self).error
            }),
            ({
                &&& !old(self).error.visible
                &&& old(self).focus == Focus::ConnectionList
                &&& key == old(self).key_config.extend_or_shorten_widget_width_to_left
            }) ==> final(self).left_main_chunk_percentage == (if old(self).left_main_chunk_percentage >= 5 {
                old(self).left_main_chunk_percentage - 5
            } else {
                0
            }) && final(self).message_queue == old(self).message_queue && final(self).focus == old(self).focus && final(self).databases == old(self).databases && final(self).tab_panel == old(self).tab_panel && (r matches Ok(s) && s == EventState::Consumed),
            ({
                &&& !old(self).error.visible
                &&& old(self).focus == Focus::ConnectionList
                &&& key == old(self).key_config.extend_or_shorten_widget_width_to_right
                &&& key != old(self).key_config.extend_or_shorten_widget_width_to_left
            }) ==> final(self).left_main_chunk_percentage == (if old(self).left_main_chunk_percentage + 5 <= 70 {
                old(self).left_main_chunk_percentage + 5
            } else {
                70
            }) && final(self).message_queue == old(self).message_queue && final(self).focus == old(self).focus && final(self).databases == old(self).databases && final(self).tab_panel == old(self).tab_panel && (r matches Ok(s) && s == EventState::Consumed),
            ({
                &&& !old(self).error.visible
                &&& old(self).focus == Focus::ConnectionList
                &&& key != old(self).key_config.extend_or_shorten_widget_width_to_left
                &&& key != old(self).key_config.extend_or_shorten_widget_width_to_right
            }) ==> *final(self) == *old(self) && (r matches Ok(s) && s
                == EventState::NotConsumed),
    {
        let res = self.error.event(key, &mut self.message_queue);
        match res {
            Ok(s) => {
                if s.is_consumed() {
                    return Ok(EventState::Consumed);
                }
            },
            Err(e) => {
                return Err(e);
            },
        }
        match self.focus {
            Focus::ConnectionList => {},
            Focus::DatabaseList => {
                let res = self.databases.event(key, &mut self.message_queue);
                match res {
                    Ok(s) => {
                        if s.is_consumed() {
                            return Ok(EventState::Consumed);
                        }
                    },
                    Err(e) => {
                        return Err(e);
                    },
                }
            },
            Focus::TabPanel => {
                let res = self.tab_panel.event(key, &mut self.message_queue);
                match res {
                    Ok(s) => {
                        if s.is_consumed() {
                            return Ok(EventState::Consumed);
                        }
                    },
                    Err(e) => {
                        return Err(e);
                    },
                }
            },
        }
        if self.extend_or_shorten_widget_width(key).is_consumed() {
            return Ok(EventState::Consumed);
        }
        Ok(EventState::NotConsumed)
    }

    /// One key cycle: dispatch to components, fall back to focus movement,
    /// then drain the queue once and hand back the requested database work.
    pub fn event(&mut self, key: Key) -> (r: Result<(EventState, Vec<PoolRequest>), UiError>)
        requires
            app_inv(old(self)),
        ensures
            app_inv(final(self)),
            (r matches Ok(p) ==> final(self).message_queue.event_queue@.len() == 0),
            ({
                &&& old(self).error.visible
                &&& old(self).message_queue.event_queue@.len() == 0
            }) ==> final(self).focus == old(self).focus && final(self).databases == old(self).databases && crate::components::tab::panel_structure(&final(self).tab_panel) == crate::components::tab::panel_structure(&old(self).tab_panel) && (r matches Ok(p) && p.0 == EventState::Consumed && p.1@.len() == 0) && (if key == old(self).key_config.exit_popup {
                !final(self).error.visible && final(self).error.error@.len() == 0
            } else {
                final(self).error == old(self).error
            }),
            ({
                &&& !old(self).error.visible
                &&& old(self).message_queue.event_queue@.len() == 0
                &&& old(self).focus == Focus::ConnectionList
                &&& key == old(self).key_config.extend_or_shorten_widget_width_to_left
            }) ==> final(self).left_main_chunk_percentage == (if old(self).left_main_chunk_percentage >= 5 {
                old(self).left_main_chunk_percentage - 5
            } else {
                0
            }) && (r matches Ok(p) && p.0 == EventState::Consumed && p.1@.len() == 0),
            ({
                &&& !old(self).error.visible
                &&& old(self).message_queue.event_queue@.len() == 0
                &&& old(self).focus == Focus::ConnectionList
                &&& key == old(self).key_config.extend_or_shorten_widget_width_to_right
                &&& key != old(self).key_config.extend_or_shorten_widget_width_to_left
            }) ==> final(self).left_main_chunk_percentage == (if old(self).left_main_chunk_percentage + 5 <= 70 {
                old(self).left_main_chunk_percentage + 5
            } else {
                70
            }) && (r matches Ok(p) && p.0 == EventState::Consumed && p.1@.len() == 0),
            ({
                &&& !old(self).error.visible
                &&& old(self).message_queue.event_queue@.len() == 0
                &&& old(self).focus == Focus::ConnectionList
                &&& key == old(self).key_config.enter
                &&& key != old(self).key_config.extend_or_shorten_widget_width_to_left
                &&& key != old(self).key_config.extend_or_shorten_widget_width_to_right
                &&& key != old(self).key_config.focus_connections
            }) ==> final(self).focus == Focus::DatabaseList && (r matches Ok(p) && p.0
                == EventState::Consumed && p.1@.len() == 0),
    {
        let mut state = EventState::NotConsumed;
        let res = self.components_event(key);
        match res {
            Ok(s) => {
                if s.is_consumed() {
                    state = EventState::Consumed;
                }
            },
            Err(e) => {
                return Err(e);
            },
        }
        if !state.is_consumed() {
            if self.move_focus(key).is_consumed() {
                state = EventState::Consumed;
            }
        }
        let requests = self.dispatch_messages();
        match requests {
            Ok(reqs) => Ok((state, reqs)),
            Err(e) => Err(e),
        }
    }
}

} // verus!
