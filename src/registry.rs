use crate::action::{Action, Key};
use crate::context::MongoContext;
use crate::model::texts;
use crate::panes::{
    connections_key_step, databases_key_step, documents_key_step, query_key_step, tree_of,
    ConnectionsPane, DatabasesPane, DocumentsPane, QueryPane, ViewMode,
};
use crate::pane_id::PaneId;
use vstd::prelude::*;

verus! {

/// What every pane offers: a handle, a title, its keys, and answers to keys
/// and to broadcast actions.
pub trait Pane {
    /// The handle of the pane.
    spec fn handle(&self) -> PaneId;

    fn id(&self) -> (r: PaneId)
        ensures
            r == self.handle(),
    ;

    fn name(&self) -> &'static str;

    fn get_shortcuts(&self) -> Vec<Shortcut>;

    /// A pane keeps its handle whatever key it is given.
    fn handle_key_event(&mut self, key: Key, ctx: &mut MongoContext) -> (r: Option<Action>)
        ensures
            final(self).handle() == old(self).handle(),
    ;

    /// A pane keeps its handle whatever action it is told about.
    fn update(&mut self, action: &Action, ctx: &MongoContext) -> (r: Option<Action>)
        ensures
            final(self).handle() == old(self).handle(),
    ;
}

impl Pane for ConnectionsPane {
    open spec fn handle(&self) -> PaneId {
        self.id
    }

    fn id(&self) -> (r: PaneId) {
        self.id
    }

    fn name(&self) -> &'static str {
        "Connections"
    }

    fn get_shortcuts(&self) -> Vec<Shortcut> {
        vec![("c", "Add"), ("Enter", "Connect"), ("j/k", "Nav"), ("Del", "Remove")]
    }

    fn handle_key_event(&mut self, key: Key, ctx: &mut MongoContext) -> (r: Option<Action>) {
        ConnectionsPane::handle_key_event(self, key, ctx)
    }

    fn update(&mut self, action: &Action, ctx: &MongoContext) -> (r: Option<Action>) {
        None
    }
}

impl Pane for DatabasesPane {
    open spec fn handle(&self) -> PaneId {
        self.id
    }

    fn id(&self) -> (r: PaneId) {
        self.id
    }

    fn name(&self) -> &'static str {
        "Databases"
    }

    fn get_shortcuts(&self) -> Vec<Shortcut> {
        vec![("Enter", "Select/Expand"), ("j/k", "Nav")]
    }

    fn handle_key_event(&mut self, key: Key, ctx: &mut MongoContext) -> (r: Option<Action>) {
        DatabasesPane::handle_key_event(self, key, ctx)
    }

    fn update(&mut self, action: &Action, ctx: &MongoContext) -> (r: Option<Action>) {
        DatabasesPane::update(self, action, ctx)
    }
}

impl Pane for QueryPane {
    open spec fn handle(&self) -> PaneId {
        self.id
    }

    fn id(&self) -> (r: PaneId) {
        self.id
    }

    fn name(&self) -> &'static str {
        "Query"
    }

    fn get_shortcuts(&self) -> Vec<Shortcut> {
        vec![("Enter", "Edit")]
    }

    fn handle_key_event(&mut self, key: Key, ctx: &mut MongoContext) -> (r: Option<Action>) {
        QueryPane::handle_key_event(self, key, ctx)
    }

    fn update(&mut self, action: &Action, ctx: &MongoContext) -> (r: Option<Action>) {
        None
    }
}

impl Pane for DocumentsPane {
    open spec fn handle(&self) -> PaneId {
        self.id
    }

    fn id(&self) -> (r: PaneId) {
        self.id
    }

    fn name(&self) -> &'static str {
        "Documents"
    }

    fn get_shortcuts(&self) -> Vec<Shortcut> {
        PaneSlot::shortcuts_for_documents(self.view_mode)
    }

    fn handle_key_event(&mut self, key: Key, ctx: &mut MongoContext) -> (r: Option<Action>) {
        DocumentsPane::handle_key_event(self, key, ctx)
    }

    fn update(&mut self, action: &Action, ctx: &MongoContext) -> (r: Option<Action>) {
        DocumentsPane::update(self, action, ctx)
    }
}

/// One pane of the browser.
pub enum PaneSlot {
    Connections(ConnectionsPane),
    Databases(DatabasesPane),
    Query(QueryPane),
    Documents(DocumentsPane),
}

/// A key and what it does, as listed in the help.
pub type Shortcut = (&'static str, &'static str);

/// What a broadcast action does to one pane: the databases pane lays out the
/// loaded databases; the documents pane reads the loaded documents, switches
/// its view, or shows the given fields; anything else leaves the pane as it
/// was.
pub open spec fn updated_by(before: PaneSlot, after: PaneSlot, action: Action, ctx: MongoContext) -> bool {
    match (before, after) {
        (PaneSlot::Databases(b), PaneSlot::Databases(a)) => {
            &&& a.id == b.id
            &&& a.expanded_dbs == b.expanded_dbs
            &&& action is DatabasesLoaded ==> a.tree_items@ == tree_of(
                ctx.databases@,
                texts(b.expanded_dbs@),
            ) && a.selected_tree_index == if a.tree_items@.len() > 0 {
                Some(0usize)
            } else {
                None
            }
            &&& !(action is DatabasesLoaded) ==> a == b
        },
        (PaneSlot::Documents(b), PaneSlot::Documents(a)) => {
            &&& a.id == b.id
            &&& action is DocumentsLoaded ==> a.fields_loaded(ctx.documents@) && a.view_mode
                == b.view_mode
            &&& action is ToggleViewMode ==> a.view_mode != b.view_mode && a.visible_fields
                == b.visible_fields && a.all_fields == b.all_fields && a.selected == b.selected
            &&& (action matches Action::UpdateVisibleFields(f) ==> texts(a.visible_fields@)
                == texts(f@) && a.selected_column_index == 0 && a.all_fields == b.all_fields
                && a.view_mode == b.view_mode && a.selected == b.selected)
            &&& !(action is DocumentsLoaded) && !(action is ToggleViewMode) && !(
            action is UpdateVisibleFields) ==> a == b
        },
        (PaneSlot::Connections(b), PaneSlot::Connections(a)) => a == b,
        (PaneSlot::Query(b), PaneSlot::Query(a)) => a == b,
        _ => false,
    }
}

/// The keys that a pane answers to, as the help lists them.
pub open spec fn shortcuts_of(p: PaneSlot) -> Seq<Shortcut> {
    match p {
        PaneSlot::Connections(_) => seq![("c", "Add"), ("Enter", "Connect"), ("j/k", "Nav"), ("Del", "Remove")],
        PaneSlot::Databases(_) => seq![("Enter", "Select/Expand"), ("j/k", "Nav")],
        PaneSlot::Query(_) => seq![("Enter", "Edit")],
        PaneSlot::Documents(d) => if d.view_mode == ViewMode::Table {
            seq![("Enter", "View"), ("j/k", "Nav"), ("h/l", "Columns"), ("y/Y", "Copy ID/Doc"), ("p/P", "Copy Val/Key"), ("f", "Fields"), ("v", "Toggle View")]
        } else {
            seq![("Enter", "View"), ("j/k", "Nav"), ("y/Y", "Copy ID/Doc"), ("v", "Toggle View")]
        },
    }
}

/// The title under which the help lists a pane's keys.
pub open spec fn name_of(p: PaneSlot) -> &'static str {
    match p {
        PaneSlot::Connections(_) => "Connections",
        PaneSlot::Databases(_) => "Databases",
        PaneSlot::Query(_) => "Query",
        PaneSlot::Documents(_) => "Documents",
    }
}

/// What a key handed to one pane does: the pane keeps its kind, and its
/// own key contract holds.
pub open spec fn keyed_by(
    before: PaneSlot,
    after: PaneSlot,
    key: Key,
    ctx0: MongoContext,
    ctx1: MongoContext,
    r: Option<Action>,
) -> bool {
    match (before, after) {
        (PaneSlot::Connections(b), PaneSlot::Connections(a)) => connections_key_step(b, a, key, ctx0, ctx1, r),
        (PaneSlot::Databases(b), PaneSlot::Databases(a)) => databases_key_step(b, a, key, ctx0, ctx1, r),
        (PaneSlot::Query(b), PaneSlot::Query(a)) => query_key_step(b, a, key, ctx0, ctx1, r),
        (PaneSlot::Documents(b), PaneSlot::Documents(a)) => documents_key_step(b, a, key, ctx0, ctx1, r),
        _ => false,
    }
}

impl PaneSlot {
    /// The handle of the pane.
    pub open spec fn pane_id(&self) -> PaneId {
        match self {
            PaneSlot::Connections(p) => p.id,
            PaneSlot::Databases(p) => p.id,
            PaneSlot::Query(p) => p.id,
            PaneSlot::Documents(p) => p.id,
        }
    }

    /// Whether `other` is a pane of the same kind with the same handle.
    pub open spec fn same_kind(&self, other: &PaneSlot) -> bool {
        &&& self.pane_id() == other.pane_id()
        &&& (self is Connections <==> other is Connections)
        &&& (self is Databases <==> other is Databases)
        &&& (self is Query <==> other is Query)
        &&& (self is Documents <==> other is Documents)
    }

    pub fn id(&self) -> (r: PaneId)
        ensures
            r == self.pane_id(),
    {
        match self {
            PaneSlot::Connections(p) => p.id,
            PaneSlot::Databases(p) => p.id,
            PaneSlot::Query(p) => p.id,
            PaneSlot::Documents(p) => p.id,
        }
    }

    /// The title under which the help lists the pane's keys.
    pub fn name(&self) -> (r: &'static str)
        ensures
            r == name_of(*self),
    {
        match self {
            PaneSlot::Connections(_) => "Connections",
            PaneSlot::Databases(_) => "Databases",
            PaneSlot::Query(_) => "Query",
            PaneSlot::Documents(_) => "Documents",
        }
    }

    /// The keys that the pane answers to, as the help lists them.
    pub fn get_shortcuts(&self) -> (r: Vec<Shortcut>)
        ensures
            r@ == shortcuts_of(*self),
    {
        let mut s: Vec<Shortcut> = Vec::new();
        match self {
            PaneSlot::Connections(_) => {
                s.push(("c", "Add"));
                s.push(("Enter", "Connect"));
                s.push(("j/k", "Nav"));
                s.push(("Del", "Remove"));
            },
            PaneSlot::Databases(_) => {
                s.push(("Enter", "Select/Expand"));
                s.push(("j/k", "Nav"));
            },
            PaneSlot::Query(_) => {
                s.push(("Enter", "Edit"));
            },
            PaneSlot::Documents(p) => {
                s = Self::shortcuts_for_documents(p.view_mode);
            },
        }
        assert(s@ =~= shortcuts_of(*self));
        s
    }

    /// The keys of the documents pane in the given view.
    pub fn shortcuts_for_documents(mode: ViewMode) -> (r: Vec<Shortcut>)
        ensures
            r@ == if mode == ViewMode::Table {
                seq![("Enter", "View"), ("j/k", "Nav"), ("h/l", "Columns"), ("y/Y", "Copy ID/Doc"), ("p/P", "Copy Val/Key"), ("f", "Fields"), ("v", "Toggle View")]
            } else {
                seq![("Enter", "View"), ("j/k", "Nav"), ("y/Y", "Copy ID/Doc"), ("v", "Toggle View")]
            },
    {
        let mut s: Vec<Shortcut> = Vec::new();
        s.push(("Enter", "View"));
        s.push(("j/k", "Nav"));
        if mode == ViewMode::Table {
            s.push(("h/l", "Columns"));
            s.push(("y/Y", "Copy ID/Doc"));
            s.push(("p/P", "Copy Val/Key"));
            s.push(("f", "Fields"));
        } else {
            s.push(("y/Y", "Copy ID/Doc"));
        }
        s.push(("v", "Toggle View"));
        assert(s@ =~= if mode == ViewMode::Table {
            seq![("Enter", "View"), ("j/k", "Nav"), ("h/l", "Columns"), ("y/Y", "Copy ID/Doc"), ("p/P", "Copy Val/Key"), ("f", "Fields"), ("v", "Toggle View")]
        } else {
            seq![("Enter", "View"), ("j/k", "Nav"), ("y/Y", "Copy ID/Doc"), ("v", "Toggle View")]
        });
        s
    }

    /// Hands a key to the pane; the pane keeps its kind and handle.
    pub fn handle_key_event(&mut self, key: Key, ctx: &mut MongoContext) -> (r: Option<Action>)
        ensures
            keyed_by(*old(self), *final(self), key, *old(ctx), *final(ctx), r),
    {
        match self {
            PaneSlot::Connections(p) => p.handle_key_event(key, ctx),
            PaneSlot::Databases(p) => p.handle_key_event(key, ctx),
            PaneSlot::Query(p) => p.handle_key_event(key, ctx),
            PaneSlot::Documents(p) => p.handle_key_event(key, ctx),
        }
    }

    /// Tells the pane about a dispatched action.
    pub fn update(&mut self, action: &Action, ctx: &MongoContext) -> (r: Option<Action>)
        ensures
            updated_by(*old(self), *final(self), *action, *ctx),
            final(self).same_kind(old(self)),
    {
        match self {
            PaneSlot::Connections(_) => None,
            PaneSlot::Databases(p) => p.update(action, ctx),
            PaneSlot::Query(_) => None,
            PaneSlot::Documents(p) => p.update(action, ctx),
        }
    }
}

/// The raw handles of the panes, in the order they were registered.
pub open spec fn ids_of(panes: Seq<PaneSlot>) -> Seq<usize> {
    panes.map_values(|p: PaneSlot| p.pane_id().id)
}

/// The position after `pos` in a cycle of `len`: the next one, wrapping
/// round, or the first when there was none.
pub open spec fn next_pos(pos: Option<int>, len: int) -> int {
    match pos {
        Some(p) => (p + 1) % len,
        None => 0,
    }
}

/// The panes in a fixed cyclic order, and the one that has the focus.
pub struct PaneRegistry {
    pub panes: Vec<PaneSlot>,
    pub active_pane: Option<PaneId>,
}

impl PaneRegistry {
    pub open spec fn ids(&self) -> Seq<usize> {
        ids_of(self.panes@)
    }

    /// Handles are distinct; a pane has the focus exactly when there is a
    /// pane, and it is a registered one.
    pub open spec fn wf(&self) -> bool {
        &&& self.ids().no_duplicates()
        &&& (self.active_pane is None <==> self.panes@.len() == 0)
        &&& (self.active_pane matches Some(a) ==> self.ids().contains(a.id))
    }

    /// The position of the focused pane.
    pub open spec fn active_pos(&self) -> Option<int> {
        match self.active_pane {
            Some(a) => if self.ids().contains(a.id) {
                Some(choose|i: int| 0 <= i < self.ids().len() && self.ids()[i] == a.id)
            } else {
                None
            },
            None => None,
        }
    }

    /// The panes and the focus are those of `other`, pane for pane of the
    /// same kind and handle.
    pub open spec fn same_layout(&self, other: &PaneRegistry) -> bool {
        &&& self.panes@.len() == other.panes@.len()
        &&& forall|i: int| 0 <= i < self.panes@.len() ==> #[trigger] self.panes@[i].same_kind(&other.panes@[i])
        &&& self.active_pane == other.active_pane
    }

    pub proof fn lemma_same_layout_ids(&self, other: &PaneRegistry)
        requires
            self.same_layout(other),
        ensures
            self.ids() == other.ids(),
            self.active_pos() == other.active_pos(),
    {
        assert(self.ids() =~= other.ids()) by {
            assert forall|i: int| 0 <= i < self.ids().len() implies self.ids()[i] == other.ids()[i] by {
                assert(self.panes@[i].same_kind(&other.panes@[i]));
            }
        }
    }

    proof fn lemma_pos_is(&self, q: int)
        requires
            self.wf(),
            0 <= q < self.ids().len(),
            self.active_pane matches Some(a) && self.ids()[q] == a.id,
        ensures
            self.active_pos() == Some(q),
    {
        let a = self.active_pane->Some_0;
        assert(self.ids().contains(a.id));
        let c = choose|i: int| 0 <= i < self.ids().len() && self.ids()[i] == a.id;
        assert(self.ids()[c] == self.ids()[q]);
    }

    /// No panes, no focus.
    pub fn new() -> (r: Self)
        ensures
            r.wf(),
            r.panes@.len() == 0,
            r.active_pane is None,
    {
        PaneRegistry { panes: Vec::new(), active_pane: None }
    }

    fn position(&self, id: PaneId) -> (r: Option<usize>)
        ensures
            r matches Some(i) ==> i < self.ids().len() && self.ids()[i as int] == id.id,
            r is None ==> !self.ids().contains(id.id),
    {
        let mut i: usize = 0;
        while i < self.panes.len()
            invariant
                0 <= i <= self.panes@.len(),
                forall|j: int| 0 <= j < i ==> self.ids()[j] != id.id,
            decreases self.panes@.len() - i,
        {
            if self.panes[i].id().id == id.id {
                return Some(i);
            }
            i = i + 1;
        }
        None
    }

    /// Adds a pane at the end of the cycle; a pane with a handle already
    /// registered takes the place of the old one. The first pane registered
    /// gets the focus.
    pub fn register(&mut self, pane: PaneSlot)
        requires
            old(self).wf(),
        ensures
            final(self).wf(),
            old(self).ids().contains(pane.pane_id().id) ==> final(self).ids() == old(self).ids(),
            !old(self).ids().contains(pane.pane_id().id) ==> final(self).panes@ == old(self).panes@.push(pane),
            final(self).active_pane == match old(self).active_pane {
                Some(a) => Some(a),
                None => Some(pane.pane_id()),
            },
    {
        let id = pane.id();
        let ghost old_ids = self.ids();
        let at: usize;
        match self.position(id) {
            Some(i) => {
                self.panes.set(i, pane);
                assert(self.ids() =~= old_ids);
                at = i;
            },
            None => {
                at = self.panes.len();
                self.panes.push(pane);
                assert(self.ids() =~= old_ids.push(id.id));
                assert(self.ids().no_duplicates()) by {
                    assert forall|a: int, b: int|
                        0 <= a < self.ids().len() && 0 <= b < self.ids().len() && a != b implies self.ids()[a]
                        != self.ids()[b] by {
                        if a == at as int {
                            assert(old_ids[b] != id.id);
                        } else if b == at as int {
                            assert(old_ids[a] != id.id);
                        }
                    }
                }
            },
        }
        assert(self.ids()[at as int] == id.id);
        if self.active_pane.is_none() {
            self.active_pane = Some(id);
        }
        proof {
            if let Some(a) = old(self).active_pane {
                let k = choose|k: int| 0 <= k < old_ids.len() && old_ids[k] == a.id;
                assert(self.ids()[k] == a.id);
            }
        }
    }

    /// The handle of the focused pane.
    pub fn active_pane_id(&self) -> (r: Option<PaneId>)
        ensures
            r == self.active_pane,
    {
        self.active_pane
    }

    /// Moves the focus to the next pane in the cycle, wrapping round after
    /// the last.
    pub fn cycle_next(&mut self)
        requires
            old(self).wf(),
        ensures
            final(self).wf(),
            final(self).panes == old(self).panes,
            old(self).panes@.len() == 0 ==> final(self).active_pane == old(self).active_pane,
            old(self).panes@.len() > 0 ==> final(self).active_pos() == Some(
                next_pos(old(self).active_pos(), old(self).panes@.len() as int),
            ),
    {
        if self.panes.len() == 0 {
            return;
        }
        let ghost len = self.panes@.len() as int;
        let pos: Option<usize> = match self.active_pane {
            Some(a) => self.position(a),
            None => None,
        };
        let next: usize = match pos {
            Some(p) => {
                proof {
                    self.lemma_pos_is(p as int);
                }
                if p + 1 < self.panes.len() { p + 1 } else { 0 }
            },
            None => 0,
        };
        proof {
            match pos {
                Some(p) => {
                    assert(self.active_pos() == Some(p as int));
                    let q = p as int + 1;
                    if q < len {
                        assert(q % len == q) by (nonlinear_arith)
                            requires
                                0 <= q < len,
                        ;
                    } else {
                        assert(q == len);
                        assert(q % len == 0) by (nonlinear_arith)
                            requires
                                q == len,
                                len > 0,
                        ;
                    }
                    assert(next as int == (p + 1) % len);
                },
                None => {
                    if let Some(a) = self.active_pane {
                        assert(!self.ids().contains(a.id));
                    }
                    assert(self.active_pos() is None);
                },
            }
        }
        let id = self.panes[next].id();
        self.active_pane = Some(id);
        proof {
            assert(self.ids()[next as int] == id.id);
            self.lemma_pos_is(next as int);
        }
    }

    /// Gives the focus to the pane with that handle; an unknown handle
    /// changes nothing.
    pub fn set_active(&mut self, id: PaneId)
        requires
            old(self).wf(),
        ensures
            final(self).wf(),
            final(self).panes == old(self).panes,
            final(self).active_pane == if old(self).ids().contains(id.id) {
                Some(id)
            } else {
                old(self).active_pane
            },
    {
        if self.position(id).is_some() {
            self.active_pane = Some(id);
        }
    }

    /// The pane with that handle.
    pub fn get_pane(&self, id: PaneId) -> (r: Option<&PaneSlot>)
        ensures
            r matches Some(p) ==> p.pane_id().id == id.id && self.panes@.contains(*p),
            r is None ==> !self.ids().contains(id.id),
    {
        match self.position(id) {
            Some(i) => Some(&self.panes[i]),
            None => None,
        }
    }

    /// The focused pane.
    pub fn get_active_pane(&self) -> (r: Option<&PaneSlot>)
        requires
            self.wf(),
        ensures
            match self.active_pos() {
                Some(i) => r == Some(&self.panes@[i]),
                None => r is None,
            },
    {
        match self.active_pane {
            Some(a) => match self.position(a) {
                Some(i) => {
                    proof {
                        self.lemma_pos_is(i as int);
                    }
                    Some(&self.panes[i])
                },
                None => None,
            },
            None => None,
        }
    }

    /// Hands a key to the focused pane only.
    pub fn handle_key_event(&mut self, key: Key, ctx: &mut MongoContext) -> (r: Option<Action>)
        requires
            old(self).wf(),
        ensures
            final(self).wf(),
            final(self).same_layout(old(self)),
            forall|i: int| 0 <= i < old(self).panes@.len() && Some(i) != old(self).active_pos()
                ==> #[trigger] final(self).panes@[i] == old(self).panes@[i],
            match old(self).active_pos() {
                Some(i) => keyed_by(old(self).panes@[i], final(self).panes@[i], key, *old(ctx), *final(ctx), r),
                None => r is None && *final(ctx) == *old(ctx),
            },
    {
        let ghost before = *self;
        match self.active_pane {
            Some(a) => match self.position(a) {
                Some(i) => {
                    proof {
                        self.lemma_pos_is(i as int);
                    }
                    let r = self.panes[i].handle_key_event(key, ctx);
                    proof {
                        assert forall|j: int| 0 <= j < self.panes@.len() implies #[trigger] self.panes@[j].same_kind(&before.panes@[j]) by {
                            if j == i as int {
                                assert(keyed_by(before.panes@[j], self.panes@[j], key, *old(ctx), *ctx, r));
                            }
                        }
                        self.lemma_same_layout_ids(&before);
                    }
                    r
                },
                None => None,
            },
            None => None,
        }
    }

    /// Tells every pane about a dispatched action, whichever has the focus.
    pub fn update_all(&mut self, action: &Action, ctx: &MongoContext)
        requires
            old(self).wf(),
        ensures
            final(self).wf(),
            final(self).same_layout(old(self)),
            forall|i: int| 0 <= i < old(self).panes@.len() ==> updated_by(
                #[trigger] old(self).panes@[i],
                final(self).panes@[i],
                *action,
                *ctx,
            ),
    {
        let ghost before = *self;
        let mut i: usize = 0;
        while i < self.panes.len()
            invariant
                0 <= i <= self.panes@.len(),
                self.panes@.len() == before.panes@.len(),
                self.active_pane == before.active_pane,
                forall|j: int| 0 <= j < self.panes@.len() ==> #[trigger] self.panes@[j].same_kind(&before.panes@[j]),
                forall|j: int| 0 <= j < i ==> updated_by(#[trigger] before.panes@[j], self.panes@[j], *action, *ctx),
                forall|j: int| i <= j < self.panes@.len() ==> #[trigger] self.panes@[j] == before.panes@[j],
            decreases self.panes@.len() - i,
        {
            let _ = self.panes[i].update(action, ctx);
            i = i + 1;
        }
        proof {
            self.lemma_same_layout_ids(&before);
        }
    }

    /// Each pane's title and keys, in cycle order.
    pub fn get_all_shortcuts(&self) -> (r: Vec<(&'static str, Vec<Shortcut>)>)
        ensures
            r@.len() == self.panes@.len(),
            forall|i: int|
                0 <= i < r@.len() ==> (#[trigger] r@[i]).0 == name_of(self.panes@[i]) && r@[i].1@
                    == shortcuts_of(self.panes@[i]),
    {
        let mut r: Vec<(&'static str, Vec<Shortcut>)> = Vec::new();
        let mut i: usize = 0;
        while i < self.panes.len()
            invariant
                0 <= i <= self.panes@.len(),
                r@.len() == i,
                forall|j: int|
                    0 <= j < i ==> (#[trigger] r@[j]).0 == name_of(self.panes@[j]) && r@[j].1@
                        == shortcuts_of(self.panes@[j]),
            decreases self.panes@.len() - i,
        {
            let p = &self.panes[i];
            r.push((p.name(), p.get_shortcuts()));
            i = i + 1;
        }
        r
    }
}

} // verus!
