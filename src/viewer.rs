use crate::action::{Action, FetchRequest, Key, Outcome, Request};
use crate::context::{edited, MongoContext, PaginationState};
use crate::model::{AppConfig, Connection};
use crate::pane_id::PaneId;
use crate::panes::{ConnectionsPane, DatabasesPane, DocumentsPane, QueryPane};
use crate::popup::{
    connection_popup_key, connection_step, error_popup_key, error_step, field_popup_key,
    field_step, help_popup_key, help_step, json_popup_key, json_step, PopupState,
};
use crate::query::{
    document_text_ok, compose_find_options, has_next_page, inputs_ok, limit_of, limit_text_ok, next_field,
    next_page_exists, options_for, page_size, validate_inputs, QueryField,
};
use crate::registry::{keyed_by, next_pos, updated_by, PaneRegistry, PaneSlot};
use vstd::prelude::*;

verus! {

/// The popup that an opening action leads to, if it is one.
pub open spec fn opens(a: Action, p: PopupState) -> bool {
    match a {
        Action::OpenConnectionManager => p matches PopupState::ConnectionManager {
            name,
            uri,
            is_editing_uri,
        } && name@.len() == 0 && uri@.len() == 0 && !is_editing_uri,
        Action::OpenQueryBuilder => p == PopupState::QueryBuilder { active_field: QueryField::Filter },
        Action::OpenJsonPopup(j, t) => p == PopupState::JsonViewer(j, t, 0),
        Action::OpenFieldSelector(all, vis) => p == PopupState::FieldSelector(Some(0usize), all, vis),
        Action::Help => p == PopupState::Help(Some(0usize)),
        _ => false,
    }
}

pub open spec fn is_opening(a: Action) -> bool {
    a is OpenConnectionManager || a is OpenQueryBuilder || a is OpenJsonPopup
        || a is OpenFieldSelector || a is Help
}

/// The outcome with neither a follow-up nor outside work.
pub open spec fn quiet() -> Outcome {
    Outcome { follow_up: None, request: None }
}

/// Whether the input of field `f` is acceptable.
pub open spec fn input_ok(ctx: MongoContext, f: QueryField) -> bool {
    match f {
        QueryField::Limit => limit_text_ok(ctx.input_of(f)),
        _ => document_text_ok(ctx.input_of(f)),
    }
}

/// Whether all four query inputs are acceptable.
pub open spec fn all_inputs_ok(ctx: MongoContext) -> bool {
    inputs_ok(
        ctx.input_of(QueryField::Filter),
        ctx.input_of(QueryField::Sort),
        ctx.input_of(QueryField::Projection),
        ctx.input_of(QueryField::Limit),
    )
}

/// What a key does while the query builder is open with field `f` focused.
/// Esc closes it and clears the marks. Tab moves the focus on. Enter marks
/// exactly the inputs that are not acceptable; when none is, the builder
/// closes, paging goes back to the first page and the documents are asked
/// for; otherwise the builder stays open and nothing is asked for. Any other
/// key edits the focused input and takes its mark off.
pub open spec fn query_step(
    f: QueryField,
    key: Key,
    before: MongoContext,
    after: MongoContext,
    popup: PopupState,
    out: Option<Action>,
) -> bool {
    &&& after.same_data(&before)
    &&& key == Key::Esc ==> popup is Closed && out == Some(Action::Render)
        && after.input_validation_errors.is_clear() && after.pagination == before.pagination
        && forall|g: QueryField| #[trigger] after.input_of(g) == before.input_of(g)
    &&& key == Key::Tab ==> popup == PopupState::QueryBuilder { active_field: next_field(f) }
        && after == before && out == Some(Action::Render)
    &&& key == Key::Enter ==> (forall|g: QueryField| #[trigger] after.input_of(g) == before.input_of(g))
        && (forall|g: QueryField|
            #[trigger] after.input_validation_errors.marked(g) == !input_ok(before, g))
        && if all_inputs_ok(before) {
        popup is Closed && out == Some(Action::RefreshDocuments) && after.pagination.current_page
            == 0 && after.pagination.total_count == before.pagination.total_count
    } else {
        popup == PopupState::QueryBuilder { active_field: f } && out == Some(Action::Render)
            && after.pagination == before.pagination
    }
    &&& key != Key::Esc && key != Key::Tab && key != Key::Enter ==> popup
        == PopupState::QueryBuilder { active_field: f } && out == Some(Action::Render)
        && after.pagination == before.pagination && after.input_of(f) == edited(
        before.input_of(f),
        key,
    ) && (forall|g: QueryField| g != f ==> #[trigger] after.input_of(g) == before.input_of(g))
        && !after.input_validation_errors.marked(f) && (forall|g: QueryField|
        g != f ==> #[trigger] after.input_validation_errors.marked(g)
            == before.input_validation_errors.marked(g))
}

/// What a key does while a popup is open: the open popup alone decides, and
/// only the query builder touches the context.
pub open spec fn popup_key_step(before: MongoViewer, key: Key, after: MongoViewer, out: Option<Action>) -> bool {
    match before.popup_state {
        PopupState::Closed => out is None && after == before,
        PopupState::Error(m) => error_step(m, key, after.popup_state, out) && after.context
            == before.context,
        PopupState::ConnectionManager { name, uri, is_editing_uri } => connection_step(
            name,
            uri,
            is_editing_uri,
            key,
            after.popup_state,
            out,
        ) && after.context == before.context,
        PopupState::JsonViewer(j, t, o) => json_step(j, t, o, key, after.popup_state, out)
            && after.context == before.context,
        PopupState::Help(c) => help_step(c, key, after.popup_state, out) && after.context
            == before.context,
        PopupState::FieldSelector(c, a, v) => field_step(c, a, v, key, after.popup_state, out)
            && after.context == before.context,
        PopupState::QueryBuilder { active_field } => query_step(
            active_field,
            key,
            before.context,
            after.context,
            after.popup_state,
            out,
        ),
    }
}

/// The generation after `g`, wrapping round after the largest.
pub open spec fn next_generation(g: u64) -> u64 {
    if g == u64::MAX {
        0
    } else {
        (g + 1) as u64
    }
}

/// The selection of a connection after the connection list shrank to `len`:
/// kept when still in bounds, else moved to the last connection.
pub open spec fn clamp_selection(sel: Option<usize>, len: int) -> Option<usize> {
    match sel {
        Some(s) => if s < len {
            Some(s)
        } else if len > 0 {
            Some((len - 1) as usize)
        } else {
            None
        },
        None => None,
    }
}

/// The page that `NextPage` moves to, if there is one: the page after the
/// current one when the count is known, the limit input is acceptable and
/// that page starts before the end of the result.
pub open spec fn page_after(ctx: MongoContext) -> Option<int> {
    let p = ctx.pagination.current_page as int;
    match ctx.pagination.total_count {
        Some(t) => if limit_text_ok(ctx.limit_input@) && has_next_page(
            p,
            limit_of(ctx.limit_input@),
            t as int,
        ) && p < usize::MAX {
            Some(p + 1)
        } else {
            None
        },
        None => None,
    }
}

/// What `RefreshDocuments` does. With no valid selection, nothing. With
/// acceptable inputs whose offset fits, a fetch of the current page of the
/// selected collection under the next generation: `skip` is the page times
/// the page size, the count is forgotten and loading starts. Otherwise an
/// error follows, the inputs are marked, and nothing is fetched.
pub open spec fn refresh_step(before: MongoViewer, after: MongoViewer, r: Outcome) -> bool {
    match before.context.target() {
        None => r == quiet() && after.context == before.context
            && after.is_loading == before.is_loading,
        Some((d, c)) => {
            let ctx = before.context;
            let page = ctx.pagination.current_page as int;
            if all_inputs_ok(ctx) && page * limit_of(ctx.limit_input@) <= u64::MAX {
                &&& r.follow_up is None
                &&& r.request matches Some(Request::FetchDocuments(q))
                &&& q.generation == next_generation(ctx.fetch_generation)
                &&& q.db_name@ == ctx.databases@[d].name@
                &&& q.collection_name@ == ctx.databases@[d].collections@[c].name@
                &&& options_for(
                    q.options,
                    ctx.query_input@,
                    ctx.sort_input@,
                    ctx.projection_input@,
                    ctx.limit_input@,
                    page,
                )
                &&& after.context.fetch_generation == next_generation(
                    ctx.fetch_generation,
                )
                &&& after.context.pagination == (PaginationState {
                    current_page: ctx.pagination.current_page,
                    total_count: None,
                })
                &&& after.is_loading
            } else {
                (r.follow_up matches Some(Action::Error(_))) && r.request is None
                    && after.context.fetch_generation == ctx.fetch_generation
                    && after.context.pagination == ctx.pagination
                    && forall|g: QueryField|
                    #[trigger] after.context.input_validation_errors.marked(g)
                        == !input_ok(ctx, g)
            }
        },
    }
}

/// What one dispatched action does to the browser, for every action but the
/// two loads: the tick advances the spinner while loading; connections are
/// added and removed; connecting, listing and fetching start loading and ask
/// for outside work; selections move paging back to the first page; paging
/// stays within the result; an error replaces any popup; opening actions
/// open their popup.
pub open spec fn dispatch_step(action: Action, before: MongoViewer, after: MongoViewer, r: Outcome) -> bool {
    let ctx = before.context;
    let persist = Outcome { follow_up: None, request: Some(Request::PersistConnections) };
    let refresh = Outcome { follow_up: Some(Action::RefreshDocuments), request: None };
    match action {
        Action::Tick => {
            &&& r == quiet()
            &&& after.context == ctx
            &&& after.popup_state == before.popup_state
            &&& after.loading_frame == if !before.is_loading {
                before.loading_frame
            } else if before.loading_frame == usize::MAX {
                0usize
            } else {
                (before.loading_frame + 1) as usize
            }
        },
        Action::SaveConnection(n, u) => {
            &&& r == persist
            &&& after.context.connections@ == ctx.connections@.push(Connection { name: n, uri: u })
            &&& after.context == (MongoContext {
                connections: after.context.connections,
                selected_connection: Some(ctx.connections@.len() as usize),
                ..ctx
            })
            &&& after.keeps_popup_and_loading(&before)
        },
        Action::DeleteConnection(i) => if i < ctx.connections@.len() {
            &&& r == persist
            &&& after.context.connections@ == ctx.connections@.remove(i as int)
            &&& after.context == (MongoContext {
                connections: after.context.connections,
                selected_connection: clamp_selection(
                    ctx.selected_connection,
                    ctx.connections@.len() - 1,
                ),
                ..ctx
            })
            &&& after.keeps_popup_and_loading(&before)
        } else {
            r == quiet() && after.context == ctx
        },
        Action::Connect(u) => {
            &&& r == (Outcome { follow_up: None, request: Some(Request::Connect(u)) })
            &&& after.is_loading
            &&& after.context == ctx
            &&& after.popup_state == before.popup_state
        },
        Action::RefreshDatabases => {
            &&& r == (Outcome { follow_up: None, request: Some(Request::ListDatabases) })
            &&& after.is_loading
            &&& after.context == ctx
        },
        Action::SelectDatabase(i) => {
            &&& r == quiet()
            &&& after.context == (MongoContext {
                selected_db_index: Some(i),
                selected_coll_index: None,
                pagination: PaginationState { current_page: 0, ..ctx.pagination },
                ..ctx
            })
            &&& after.keeps_popup_and_loading(&before)
        },
        Action::SelectCollection(i) => {
            &&& r == refresh
            &&& after.context == (MongoContext {
                selected_coll_index: Some(i),
                pagination: PaginationState { current_page: 0, ..ctx.pagination },
                ..ctx
            })
            &&& after.keeps_popup_and_loading(&before)
        },
        Action::RefreshDocuments => refresh_step(before, after, r),
        Action::NextPage => match page_after(ctx) {
            Some(p) => {
                &&& r == refresh
                &&& after.context == (MongoContext {
                    pagination: PaginationState { current_page: p as usize, ..ctx.pagination },
                    ..ctx
                })
                &&& after.keeps_popup_and_loading(&before)
            },
            None => r == quiet() && after.unchanged(&before),
        },
        Action::PreviousPage => if ctx.pagination.current_page > 0 {
            &&& r == refresh
            &&& after.context == (MongoContext {
                pagination: PaginationState {
                    current_page: (ctx.pagination.current_page - 1) as usize,
                    ..ctx.pagination
                },
                ..ctx
            })
            &&& after.keeps_popup_and_loading(&before)
        } else {
            r == quiet() && after.unchanged(&before)
        },
        Action::Error(m) => {
            &&& r == quiet()
            &&& !after.is_loading
            &&& after.popup_state == PopupState::Error(m)
            &&& after.context == ctx
        },
        Action::ErrorMsg(m) => {
            &&& r == quiet()
            &&& !after.is_loading
            &&& after.popup_state == PopupState::Error(m)
            &&& after.context == ctx
        },
        Action::FetchFailed(g, m) => if g == ctx.fetch_generation {
            &&& r == quiet()
            &&& !after.is_loading
            &&& after.popup_state == PopupState::Error(m)
            &&& after.context == ctx
        } else {
            r == quiet() && after.unchanged(&before)
        },
        Action::ClosePopup => r == quiet() && after.popup_state is Closed && after.context == ctx,
        Action::CopyToClipboard(t) => {
            &&& r == (Outcome { follow_up: None, request: Some(Request::CopyToClipboard(t)) })
            &&& after.context == ctx
        },
        Action::UpdateVisibleFields(_) => {
            &&& r == quiet()
            &&& after.popup_state == before.popup_state
            &&& after.context == ctx
        },
        Action::ToggleViewMode => {
            &&& r == quiet()
            &&& after.popup_state == before.popup_state
            &&& after.context == ctx
        },
        _ => {
            &&& r == quiet()
            &&& after.context == ctx
            &&& is_opening(action) ==> opens(action, after.popup_state)
            &&& !is_opening(action) ==> after.popup_state == before.popup_state
        },
    }
}

/// How the browser answers what the focused pane handed back: an opening
/// action opens its popup and asks for a render; any other answer is passed
/// on, and no popup opens.
pub open spec fn answered(pane_out: Option<Action>, popup: PopupState, r: Option<Action>) -> bool {
    match pane_out {
        Some(a) => if is_opening(a) {
            opens(a, popup) && r == Some(Action::Render)
        } else {
            popup is Closed && r == Some(a)
        },
        None => popup is Closed && r is None,
    }
}

/// The browser: shared context, panes, popup, and the loading indicator.
pub struct MongoViewer {
    pub context: MongoContext,
    pub registry: PaneRegistry,
    pub popup_state: PopupState,
    pub conn_pane_id: PaneId,
    pub db_pane_id: PaneId,
    pub query_pane_id: PaneId,
    pub doc_pane_id: PaneId,
    pub is_loading: bool,
    pub loading_frame: usize,
}

impl MongoViewer {
    /// The four panes stand in the cycle in the order connections, databases,
    /// query, documents, under the four handles.
    pub open spec fn wf(&self) -> bool {
        &&& self.registry.wf()
        &&& self.registry.panes@.len() == 4
        &&& self.registry.panes@[0] is Connections
        &&& self.registry.panes@[1] is Databases
        &&& self.registry.panes@[2] is Query
        &&& self.registry.panes@[3] is Documents
        &&& self.registry.panes@[0].pane_id() == self.conn_pane_id
        &&& self.registry.panes@[1].pane_id() == self.db_pane_id
        &&& self.registry.panes@[2].pane_id() == self.query_pane_id
        &&& self.registry.panes@[3].pane_id() == self.doc_pane_id
    }

    /// The popup and the loading indicator are those of `other`.
    pub open spec fn keeps_popup_and_loading(&self, other: &MongoViewer) -> bool {
        &&& self.popup_state == other.popup_state
        &&& self.is_loading == other.is_loading
        &&& self.loading_frame == other.loading_frame
    }

    /// Nothing that the browser shows or decides on differs from `other`.
    pub open spec fn unchanged(&self, other: &MongoViewer) -> bool {
        &&& self.context == other.context
        &&& self.popup_state == other.popup_state
        &&& self.registry.panes@ == other.registry.panes@
        &&& self.registry.active_pane == other.registry.active_pane
        &&& self.is_loading == other.is_loading
        &&& self.loading_frame == other.loading_frame
    }

    pub open spec fn documents_pane(&self) -> DocumentsPane {
        self.registry.panes@[3]->Documents_0
    }

    pub open spec fn databases_pane(&self) -> DatabasesPane {
        self.registry.panes@[1]->Databases_0
    }

    /// The handles, the popup, the context and the loading indicator are as
    /// in `other`; only the panes may differ.
    pub open spec fn same_besides_panes(&self, other: &MongoViewer) -> bool {
        &&& self.context == other.context
        &&& self.popup_state == other.popup_state
        &&& self.conn_pane_id == other.conn_pane_id
        &&& self.db_pane_id == other.db_pane_id
        &&& self.query_pane_id == other.query_pane_id
        &&& self.doc_pane_id == other.doc_pane_id
        &&& self.is_loading == other.is_loading
        &&& self.loading_frame == other.loading_frame
    }

    proof fn lemma_layout_keeps_wf(&self, other: &MongoViewer)
        requires
            other.wf(),
            self.registry.wf(),
            self.registry.same_layout(&other.registry),
            self.conn_pane_id == other.conn_pane_id,
            self.db_pane_id == other.db_pane_id,
            self.query_pane_id == other.query_pane_id,
            self.doc_pane_id == other.doc_pane_id,
        ensures
            self.wf(),
    {
        assert(self.registry.panes@[0].same_kind(&other.registry.panes@[0]));
        assert(self.registry.panes@[1].same_kind(&other.registry.panes@[1]));
        assert(self.registry.panes@[2].same_kind(&other.registry.panes@[2]));
        assert(self.registry.panes@[3].same_kind(&other.registry.panes@[3]));
    }

    /// The four panes in their order, the connections pane focused, no
    /// popup, nothing loaded and nothing loading.
    pub fn new() -> (r: Self)
        ensures
            r.wf(),
            r.popup_state is Closed,
            !r.is_loading,
            r.registry.active_pane == Some(r.conn_pane_id),
            r.context.connections@.len() == 0,
            r.context.databases@.len() == 0,
            r.context.documents@.len() == 0,
            r.context.pagination == (PaginationState { current_page: 0, total_count: None }),
            r.context.fetch_generation == 0,
    {
        let mut counter: usize = 0;
        let conn_pane_id = PaneId::new(&mut counter);
        let db_pane_id = PaneId::new(&mut counter);
        let query_pane_id = PaneId::new(&mut counter);
        let doc_pane_id = PaneId::new(&mut counter);
        let mut registry = PaneRegistry::new();
        registry.register(PaneSlot::Connections(ConnectionsPane::new(conn_pane_id)));
        registry.register(PaneSlot::Databases(DatabasesPane::new(db_pane_id)));
        assert(registry.ids()[0] == 0);
        registry.register(PaneSlot::Query(QueryPane::new(query_pane_id)));
        assert(registry.ids()[0] == 0 && registry.ids()[1] == 1);
        registry.register(PaneSlot::Documents(DocumentsPane::new(doc_pane_id)));
        registry.set_active(conn_pane_id);
        MongoViewer {
            context: MongoContext::new(),
            registry,
            popup_state: PopupState::Closed,
            conn_pane_id,
            db_pane_id,
            query_pane_id,
            doc_pane_id,
            is_loading: false,
            loading_frame: 0,
        }
    }

    /// The keys that work whatever pane has the focus.
    pub fn get_global_shortcuts(&self) -> (r: Vec<(&'static str, &'static str)>)
        ensures
            r@ == seq![("q", "Quit"), ("?", "Help"), ("Tab", "Cycle")],
    {
        let mut r: Vec<(&'static str, &'static str)> = Vec::new();
        r.push(("q", "Quit"));
        r.push(("?", "Help"));
        r.push(("Tab", "Cycle"));
        assert(r@ =~= seq![("q", "Quit"), ("?", "Help"), ("Tab", "Cycle")]);
        r
    }

    /// Takes the connections of the stored settings.
    pub fn register_config_handler(&mut self, config: AppConfig)
        ensures
            final(self).context.connections == config.connections,
            final(self).registry == old(self).registry,
            final(self).popup_state == old(self).popup_state,
            final(self).context.same_inputs(&old(self).context),
    {
        self.context.connections = config.connections;
    }

    /// Opens the popup that an opening action asks for; any other action is
    /// handed back.
    fn open_popup(&mut self, action: Action) -> (r: Option<Action>)
        ensures
            is_opening(action) ==> opens(action, final(self).popup_state) && r is None,
            !is_opening(action) ==> final(self).popup_state == old(self).popup_state && r == Some(
                action,
            ),
            final(self).context == old(self).context,
            final(self).registry == old(self).registry,
            final(self).same_besides_panes(old(self)) || is_opening(action),
            final(self).conn_pane_id == old(self).conn_pane_id,
            final(self).db_pane_id == old(self).db_pane_id,
            final(self).query_pane_id == old(self).query_pane_id,
            final(self).doc_pane_id == old(self).doc_pane_id,
            final(self).is_loading == old(self).is_loading,
            final(self).loading_frame == old(self).loading_frame,
    {
        match action {
            Action::OpenConnectionManager => {
                self.popup_state = PopupState::ConnectionManager {
                    name: Vec::new(),
                    uri: Vec::new(),
                    is_editing_uri: false,
                };
                None
            },
            Action::OpenQueryBuilder => {
                self.popup_state = PopupState::QueryBuilder { active_field: QueryField::Filter };
                None
            },
            Action::OpenJsonPopup(json, title) => {
                self.popup_state = PopupState::JsonViewer(json, title, 0);
                None
            },
            Action::OpenFieldSelector(all, visible) => {
                self.popup_state = PopupState::FieldSelector(Some(0), all, visible);
                None
            },
            Action::Help => {
                self.popup_state = PopupState::Help(Some(0));
                None
            },
            other => Some(other),
        }
    }

    /// Hands a key to the open popup.
    pub fn handle_popup_events(&mut self, key: Key) -> (r: Option<Action>)
        requires
            old(self).wf(),
        ensures
            final(self).wf(),
            final(self).registry == old(self).registry,
            final(self).conn_pane_id == old(self).conn_pane_id,
            final(self).db_pane_id == old(self).db_pane_id,
            final(self).query_pane_id == old(self).query_pane_id,
            final(self).doc_pane_id == old(self).doc_pane_id,
            final(self).is_loading == old(self).is_loading,
            final(self).loading_frame == old(self).loading_frame,
            popup_key_step(*old(self), key, *final(self), r),
    {
        let mut popup = PopupState::Closed;
        std::mem::swap(&mut popup, &mut self.popup_state);
        let (next, r) = match popup {
            PopupState::Closed => (PopupState::Closed, None),
            PopupState::Error(m) => error_popup_key(m, key),
            PopupState::ConnectionManager { name, uri, is_editing_uri } => connection_popup_key(
                name,
                uri,
                is_editing_uri,
                key,
            ),
            PopupState::JsonViewer(j, t, o) => json_popup_key(j, t, o, key),
            PopupState::Help(c) => help_popup_key(c, key),
            PopupState::FieldSelector(c, a, v) => field_popup_key(c, a, v, key),
            PopupState::QueryBuilder { active_field } => self.query_popup_key(active_field, key),
        };
        self.popup_state = next;
        r
    }

    fn query_popup_key(&mut self, f: QueryField, key: Key) -> (r: (PopupState, Option<Action>))
        ensures
            query_step(f, key, old(self).context, final(self).context, r.0, r.1),
            final(self).registry == old(self).registry,
            final(self).popup_state == old(self).popup_state,
            final(self).conn_pane_id == old(self).conn_pane_id,
            final(self).db_pane_id == old(self).db_pane_id,
            final(self).query_pane_id == old(self).query_pane_id,
            final(self).doc_pane_id == old(self).doc_pane_id,
            final(self).is_loading == old(self).is_loading,
            final(self).loading_frame == old(self).loading_frame,
    {
        match key {
            Key::Esc => {
                self.context.input_validation_errors = crate::query::ValidationErrors::none();
                (PopupState::Closed, Some(Action::Render))
            },
            Key::Tab => (PopupState::QueryBuilder { active_field: f.next() }, Some(Action::Render)),
            Key::Enter => {
                let errors = validate_inputs(
                    &self.context.query_input,
                    &self.context.sort_input,
                    &self.context.projection_input,
                    &self.context.limit_input,
                );
                let ok = !errors.contains(QueryField::Filter) && !errors.contains(QueryField::Sort)
                    && !errors.contains(QueryField::Projection) && !errors.contains(
                    QueryField::Limit,
                );
                self.context.input_validation_errors = errors;
                proof {
                    assert forall|g: QueryField|
                        #[trigger] self.context.input_validation_errors.marked(g) == !input_ok(
                            old(self).context,
                            g,
                        ) by {
                        match g {
                            QueryField::Filter => {},
                            QueryField::Sort => {},
                            QueryField::Projection => {},
                            QueryField::Limit => {},
                        }
                    }
                }
                if ok {
                    self.context.pagination.current_page = 0;
                    (PopupState::Closed, Some(Action::RefreshDocuments))
                } else {
                    (PopupState::QueryBuilder { active_field: f }, Some(Action::Render))
                }
            },
            _ => {
                self.context.edit_input(f, key);
                (PopupState::QueryBuilder { active_field: f }, Some(Action::Render))
            },
        }
    }

    /// Routes a key: an open popup takes it; otherwise `q` quits, `?` opens
    /// the help, Tab moves the focus to the next pane, `1` to `4` focus a
    /// pane directly, and any other key goes to the focused pane alone. An
    /// opening action that the pane hands back opens its popup at once.
    pub fn handle_key_events(&mut self, key: Key) -> (r: Option<Action>)
        requires
            old(self).wf(),
        ensures
            final(self).wf(),
            final(self).conn_pane_id == old(self).conn_pane_id,
            final(self).db_pane_id == old(self).db_pane_id,
            final(self).query_pane_id == old(self).query_pane_id,
            final(self).doc_pane_id == old(self).doc_pane_id,
            final(self).is_loading == old(self).is_loading,
            final(self).loading_frame == old(self).loading_frame,
            !(old(self).popup_state is Closed) ==> final(self).registry == old(self).registry
                && popup_key_step(*old(self), key, *final(self), r),
            old(self).popup_state is Closed ==> {
                &&& key == Key::Char('q') ==> r == Some(Action::Quit) && *final(self) == *old(self)
                &&& key == Key::Char('?') ==> r == Some(Action::Render) && final(self).popup_state
                    == PopupState::Help(Some(0usize)) && final(self).registry == old(self).registry
                    && final(self).context == old(self).context
                &&& key == Key::Tab ==> r == Some(Action::Render) && final(self).popup_state is Closed
                    && final(self).registry.panes == old(self).registry.panes
                    && final(self).registry.active_pos() == Some(
                    next_pos(old(self).registry.active_pos(), 4),
                ) && final(self).context == old(self).context
                &&& key == Key::Char('1') ==> r == Some(Action::Render)
                    && final(self).registry.active_pane == Some(old(self).conn_pane_id)
                    && final(self).registry.panes == old(self).registry.panes
                &&& key == Key::Char('2') ==> r == Some(Action::Render)
                    && final(self).registry.active_pane == Some(old(self).db_pane_id)
                    && final(self).registry.panes == old(self).registry.panes
                &&& key == Key::Char('3') ==> r == Some(Action::Render)
                    && final(self).registry.active_pane == Some(old(self).query_pane_id)
                    && final(self).registry.panes == old(self).registry.panes
                &&& key == Key::Char('4') ==> r == Some(Action::Render)
                    && final(self).registry.active_pane == Some(old(self).doc_pane_id)
                    && final(self).registry.panes == old(self).registry.panes
                &&& !(key == Key::Char('q') || key == Key::Char('?') || key == Key::Tab || key
                    == Key::Char('1') || key == Key::Char('2') || key == Key::Char('3') || key
                    == Key::Char('4')) ==> {
                    &&& final(self).registry.same_layout(&old(self).registry)
                    &&& forall|i: int|
                        0 <= i < 4 && Some(i) != old(self).registry.active_pos()
                            ==> #[trigger] final(self).registry.panes@[i] == old(self).registry.panes@[i]
                    &&& match old(self).registry.active_pos() {
                        Some(i) => exists|pane_out: Option<Action>|
                            #[trigger] keyed_by(
                                old(self).registry.panes@[i],
                                final(self).registry.panes@[i],
                                key,
                                old(self).context,
                                final(self).context,
                                pane_out,
                            ) && answered(pane_out, final(self).popup_state, r),
                        None => r is None && final(self).context == old(self).context
                            && final(self).popup_state is Closed,
                    }
                }
            },
    {
        if !matches!(self.popup_state, PopupState::Closed) {
            return self.handle_popup_events(key);
        }
        match key {
            Key::Char('q') => Some(Action::Quit),
            Key::Char('?') => {
                self.popup_state = PopupState::Help(Some(0));
                Some(Action::Render)
            },
            Key::Tab => {
                self.registry.cycle_next();
                Some(Action::Render)
            },
            Key::Char('1') => {
                assert(self.registry.ids()[0] == self.conn_pane_id.id);
                self.registry.set_active(self.conn_pane_id);
                Some(Action::Render)
            },
            Key::Char('2') => {
                assert(self.registry.ids()[1] == self.db_pane_id.id);
                self.registry.set_active(self.db_pane_id);
                Some(Action::Render)
            },
            Key::Char('3') => {
                assert(self.registry.ids()[2] == self.query_pane_id.id);
                self.registry.set_active(self.query_pane_id);
                Some(Action::Render)
            },
            Key::Char('4') => {
                assert(self.registry.ids()[3] == self.doc_pane_id.id);
                self.registry.set_active(self.doc_pane_id);
                Some(Action::Render)
            },
            _ => {
                let ghost before = *self;
                let routed = self.registry.handle_key_event(key, &mut self.context);
                proof {
                    self.lemma_layout_keeps_wf(&before);
                }
                let ghost after_pane = *self;
                let ghost pane_out = routed;
                let r = match routed {
                    Some(a) => {
                        if is_opening_action(&a) {
                            let _ = self.open_popup(a);
                            Some(Action::Render)
                        } else {
                            Some(a)
                        }
                    },
                    None => None,
                };
                proof {
                    if let Some(i) = before.registry.active_pos() {
                        assert(self.registry.panes@[i] == after_pane.registry.panes@[i]);
                        assert(keyed_by(
                            before.registry.panes@[i],
                            self.registry.panes@[i],
                            key,
                            before.context,
                            self.context,
                            pane_out,
                        ));
                    }
                }
                r
            },
        }
    }

    /// Tells every pane about the action.
    fn broadcast(&mut self, action: &Action)
        requires
            old(self).wf(),
        ensures
            final(self).wf(),
            final(self).same_besides_panes(old(self)),
            final(self).registry.active_pane == old(self).registry.active_pane,
            forall|i: int|
                0 <= i < 4 ==> updated_by(
                    #[trigger] old(self).registry.panes@[i],
                    final(self).registry.panes@[i],
                    *action,
                    old(self).context,
                ),
    {
        let ghost before = *self;
        self.registry.update_all(action, &self.context);
        proof {
            self.lemma_layout_keeps_wf(&before);
        }
    }

    /// Applies one dispatched action: loads, paging, popups, connections and
    /// the loading indicator, then tells every pane. Says which action
    /// follows, if any, and which outside work is to be done.
    pub fn update(&mut self, action: Action) -> (r: Outcome)
        requires
            old(self).wf(),
        ensures
            final(self).wf(),
            final(self).conn_pane_id == old(self).conn_pane_id,
            final(self).db_pane_id == old(self).db_pane_id,
            final(self).query_pane_id == old(self).query_pane_id,
            final(self).doc_pane_id == old(self).doc_pane_id,
            !(action is DatabasesLoaded) && !(action is DocumentsLoaded) && !(action is ToggleViewMode)
                && !(action is UpdateVisibleFields) ==> final(self).registry.panes@ == old(self).registry.panes@ && final(self).registry.active_pane == old(self).registry.active_pane,
            !(action is DatabasesLoaded) && !(action is DocumentsLoaded) ==> dispatch_step(
                action,
                *old(self),
                *final(self),
                r,
            ),
            action matches Action::DatabasesLoaded(dbs) ==> r == quiet() && !final(self).is_loading
                && final(self).context.databases == dbs && final(self).registry.active_pane
                == Some(old(self).db_pane_id) && updated_by(
                old(self).registry.panes@[1],
                final(self).registry.panes@[1],
                action,
                final(self).context,
            ) && final(self).popup_state == old(self).popup_state,
            action matches Action::DocumentsLoaded(g, docs, n) ==> r == quiet() && if g == old(self).context.fetch_generation {
                &&& !final(self).is_loading
                &&& final(self).context.documents == docs
                &&& final(self).context.pagination.total_count == Some(n)
                &&& final(self).context.pagination.current_page == old(self).context.pagination.current_page
                &&& final(self).registry.active_pane == Some(old(self).doc_pane_id)
                &&& final(self).documents_pane().fields_loaded(docs@)
                &&& final(self).popup_state == old(self).popup_state
            } else {
                final(self).unchanged(old(self))
            },
            action is UpdateVisibleFields ==> updated_by(
                old(self).registry.panes@[3],
                final(self).registry.panes@[3],
                action,
                old(self).context,
            ),
            action is ToggleViewMode ==> final(self).documents_pane().view_mode != old(self).documents_pane().view_mode,
    {
        match action {
            Action::DatabasesLoaded(dbs) => {
                self.is_loading = false;
                self.context.databases = dbs;
                assert(self.registry.ids()[1] == self.db_pane_id.id);
                self.registry.set_active(self.db_pane_id);
                self.broadcast(&Action::DatabasesLoaded(Vec::new()));
                Outcome { follow_up: None, request: None }
            },
            Action::DocumentsLoaded(g, docs, n) => {
                if g != self.context.fetch_generation {
                    return Outcome { follow_up: None, request: None };
                }
                self.is_loading = false;
                self.context.documents = docs;
                self.context.pagination.total_count = Some(n);
                assert(self.registry.ids()[3] == self.doc_pane_id.id);
                self.registry.set_active(self.doc_pane_id);
                self.broadcast(&Action::DocumentsLoaded(g, Vec::new(), n));
                Outcome { follow_up: None, request: None }
            },
            other => {
                let ghost before = *self;
                self.broadcast(&other);
                proof {
                    if !(other is UpdateVisibleFields) && !(other is ToggleViewMode) {
                        assert(self.registry.panes@ =~= before.registry.panes@) by {
                            assert forall|i: int| 0 <= i < 4 implies self.registry.panes@[i]
                                == before.registry.panes@[i] by {
                                assert(updated_by(before.registry.panes@[i], self.registry.panes@[i], other, before.context));
                            }
                        }
                    }
                    assert(updated_by(before.registry.panes@[3], self.registry.panes@[3], other, before.context));
                }
                self.apply(other)
            },
        }
    }

    /// Everything but the two loads, once the panes have been told.
    fn apply(&mut self, action: Action) -> (r: Outcome)
        requires
            old(self).wf(),
            !(action is DatabasesLoaded),
            !(action is DocumentsLoaded),
        ensures
            final(self).wf(),
            final(self).registry == old(self).registry,
            final(self).conn_pane_id == old(self).conn_pane_id,
            final(self).db_pane_id == old(self).db_pane_id,
            final(self).query_pane_id == old(self).query_pane_id,
            final(self).doc_pane_id == old(self).doc_pane_id,
            dispatch_step(action, *old(self), *final(self), r),
    {
        let quiet_outcome = Outcome { follow_up: None, request: None };
        match action {
            Action::Tick => {
                if self.is_loading {
                    self.loading_frame = self.loading_frame.wrapping_add(1);
                }
                quiet_outcome
            },
            Action::SaveConnection(name, uri) => {
                self.context.connections.push(Connection { name, uri });
                self.context.selected_connection = Some(self.context.connections.len() - 1);
                Outcome { follow_up: None, request: Some(Request::PersistConnections) }
            },
            Action::DeleteConnection(i) => {
                if i >= self.context.connections.len() {
                    return quiet_outcome;
                }
                self.context.connections.remove(i);
                let len = self.context.connections.len();
                self.context.selected_connection = match self.context.selected_connection {
                    Some(s) => if s < len {
                        Some(s)
                    } else if len > 0 {
                        Some(len - 1)
                    } else {
                        None
                    },
                    None => None,
                };
                Outcome { follow_up: None, request: Some(Request::PersistConnections) }
            },
            Action::Connect(uri) => {
                self.is_loading = true;
                Outcome { follow_up: None, request: Some(Request::Connect(uri)) }
            },
            Action::RefreshDatabases => {
                self.is_loading = true;
                Outcome { follow_up: None, request: Some(Request::ListDatabases) }
            },
            Action::SelectDatabase(i) => {
                self.context.selected_db_index = Some(i);
                self.context.selected_coll_index = None;
                self.context.pagination.current_page = 0;
                quiet_outcome
            },
            Action::SelectCollection(i) => {
                self.context.selected_coll_index = Some(i);
                self.context.pagination.current_page = 0;
                Outcome { follow_up: Some(Action::RefreshDocuments), request: None }
            },
            Action::RefreshDocuments => self.refresh_documents(),
            Action::NextPage => {
                let total = match self.context.pagination.total_count {
                    Some(t) => t,
                    None => return quiet_outcome,
                };
                let size = match page_size(&self.context.limit_input) {
                    Some(v) => v,
                    None => return quiet_outcome,
                };
                let p = self.context.pagination.current_page;
                if p < usize::MAX && next_page_exists(p, size, total) {
                    self.context.pagination.current_page = p + 1;
                    Outcome { follow_up: Some(Action::RefreshDocuments), request: None }
                } else {
                    quiet_outcome
                }
            },
            Action::PreviousPage => {
                if self.context.pagination.current_page > 0 {
                    self.context.pagination.current_page = self.context.pagination.current_page - 1;
                    Outcome { follow_up: Some(Action::RefreshDocuments), request: None }
                } else {
                    quiet_outcome
                }
            },
            Action::Error(msg) => {
                self.is_loading = false;
                self.popup_state = PopupState::Error(msg);
                quiet_outcome
            },
            Action::FetchFailed(g, msg) => {
                if g == self.context.fetch_generation {
                    self.is_loading = false;
                    self.popup_state = PopupState::Error(msg);
                }
                quiet_outcome
            },
            Action::ErrorMsg(msg) => {
                self.is_loading = false;
                self.popup_state = PopupState::Error(msg);
                quiet_outcome
            },
            Action::ClosePopup => {
                self.popup_state = PopupState::Closed;
                quiet_outcome
            },
            Action::CopyToClipboard(text) => Outcome {
                follow_up: None,
                request: Some(Request::CopyToClipboard(text)),
            },
            other => {
                let _ = self.open_popup(other);
                quiet_outcome
            },
        }
    }

    /// Asks for the current page of the selected collection, as the query
    /// inputs describe it, under a new generation.
    fn refresh_documents(&mut self) -> (r: Outcome)
        requires
            old(self).wf(),
        ensures
            final(self).wf(),
            final(self).registry == old(self).registry,
            final(self).popup_state == old(self).popup_state,
            final(self).conn_pane_id == old(self).conn_pane_id,
            final(self).db_pane_id == old(self).db_pane_id,
            final(self).query_pane_id == old(self).query_pane_id,
            final(self).doc_pane_id == old(self).doc_pane_id,
            final(self).loading_frame == old(self).loading_frame,
            final(self).context.connections == old(self).context.connections,
            final(self).context.databases == old(self).context.databases,
            final(self).context.documents == old(self).context.documents,
            final(self).context.selected_db_index == old(self).context.selected_db_index,
            final(self).context.selected_coll_index == old(self).context.selected_coll_index,
            refresh_step(*old(self), *final(self), r),
    {
        let (db_name, collection_name) = match self.context.target_names() {
            Some(names) => names,
            None => return Outcome { follow_up: None, request: None },
        };
        let page = self.context.pagination.current_page;
        match compose_find_options(
            &self.context.query_input,
            &self.context.sort_input,
            &self.context.projection_input,
            &self.context.limit_input,
            page,
        ) {
            Some(options) => {
                let g = self.context.fetch_generation;
                let generation = if g == u64::MAX { 0 } else { g + 1 };
                self.context.fetch_generation = generation;
                self.context.pagination.total_count = None;
                self.is_loading = true;
                Outcome {
                    follow_up: None,
                    request: Some(
                        Request::FetchDocuments(
                            FetchRequest { generation, db_name, collection_name, options },
                        ),
                    ),
                }
            },
            None => {
                let errors = validate_inputs(
                    &self.context.query_input,
                    &self.context.sort_input,
                    &self.context.projection_input,
                    &self.context.limit_input,
                );
                self.context.input_validation_errors = errors;
                proof {
                    assert forall|g: QueryField|
                        #[trigger] self.context.input_validation_errors.marked(g) == !input_ok(
                            old(self).context,
                            g,
                        ) by {
                        match g {
                            QueryField::Filter => {},
                            QueryField::Sort => {},
                            QueryField::Projection => {},
                            QueryField::Limit => {},
                        }
                    }
                }
                Outcome {
                    follow_up: Some(Action::Error("Invalid query input".to_string())),
                    request: None,
                }
            },
        }
    }
}

/// Whether the action opens a popup.
pub fn is_opening_action(a: &Action) -> (r: bool)
    ensures
        r == is_opening(*a),
{
    match a {
        Action::OpenConnectionManager => true,
        Action::OpenQueryBuilder => true,
        Action::OpenJsonPopup(_, _) => true,
        Action::OpenFieldSelector(_, _) => true,
        Action::Help => true,
        _ => false,
    }
}

} // verus!
