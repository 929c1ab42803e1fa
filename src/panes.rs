use crate::action::{Action, Key};
use crate::context::{MongoContext, PaginationState};
use crate::model::{
    contains_text, copy_texts, id_field, insert_sorted, join_texts, joined, remove_text,
    strictly_sorted, texts, toggled, without_text, DatabaseInfo, Document,
};
use crate::pane_id::PaneId;
use vstd::prelude::*;
use vstd::string::*;

verus! {

/// Keys that move a list cursor down.
pub open spec fn is_down(k: Key) -> bool {
    k == Key::Down || k == Key::Char('j')
}

/// Keys that move a list cursor up.
pub open spec fn is_up(k: Key) -> bool {
    k == Key::Up || k == Key::Char('k')
}

/// The cursor after moving down a list of `len` rows: one row on, stopping at
/// the last; onto the first row when there was none.
pub open spec fn moved_down(sel: Option<usize>, len: int) -> Option<usize> {
    match sel {
        Some(i) => if i + 1 < len { Some((i + 1) as usize) } else { sel },
        None => if len > 0 { Some(0usize) } else { None },
    }
}

/// The cursor after moving up: one row back, stopping at the first.
pub open spec fn moved_up(sel: Option<usize>) -> Option<usize> {
    match sel {
        Some(i) => if i > 0 { Some((i - 1) as usize) } else { sel },
        None => None,
    }
}

/// A render is asked for exactly when the cursor moved.
pub open spec fn render_if_moved(before: Option<usize>, after: Option<usize>) -> Option<Action> {
    if before != after {
        Some(Action::Render)
    } else {
        None
    }
}

fn move_down(sel: Option<usize>, len: usize) -> (r: Option<usize>)
    ensures
        r == moved_down(sel, len as int),
{
    match sel {
        Some(i) => if i < len && i + 1 < len { Some(i + 1) } else { sel },
        None => if len > 0 { Some(0) } else { None },
    }
}

fn move_up(sel: Option<usize>) -> (r: Option<usize>)
    ensures
        r == moved_up(sel),
{
    match sel {
        Some(i) => if i > 0 { Some(i - 1) } else { sel },
        None => None,
    }
}

fn render_if_changed(before: Option<usize>, after: Option<usize>) -> (r: Option<Action>)
    ensures
        r == render_if_moved(before, after),
{
    if before != after {
        Some(Action::Render)
    } else {
        None
    }
}

/// The list of saved connections.
pub struct ConnectionsPane {
    pub id: PaneId,
}

/// What a key does to the connections pane. Down and up move the selected
/// connection; Enter asks to connect to it; `c` asks for the connection
/// editor; Delete asks to remove the selected connection. Only the selection
/// of the context changes.
pub open spec fn connections_key_step(
    before: ConnectionsPane,
    after: ConnectionsPane,
    key: Key,
    ctx0: MongoContext,
    ctx1: MongoContext,
    r: Option<Action>,
) -> bool {
    let sel0 = ctx0.selected_connection;
    let sel1 = ctx1.selected_connection;
    &&& after == before
    &&& ctx1 == (MongoContext { selected_connection: sel1, ..ctx0 })
    &&& is_down(key) ==> sel1 == moved_down(sel0, ctx0.connections@.len() as int) && r
        == render_if_moved(sel0, sel1)
    &&& is_up(key) ==> sel1 == moved_up(sel0) && r == render_if_moved(sel0, sel1)
    &&& !is_down(key) && !is_up(key) ==> sel1 == sel0
    &&& key == Key::Enter ==> match ConnectionsPane::chosen(&ctx0) {
        Some(i) => (r matches Some(Action::Connect(u)) && u@ == ctx0.connections@[i].uri@),
        None => r is None,
    }
    &&& key == Key::Delete ==> match ConnectionsPane::chosen(&ctx0) {
        Some(i) => r == Some(Action::DeleteConnection(i as usize)),
        None => r is None,
    }
    &&& key == Key::Char('c') ==> r == Some(Action::OpenConnectionManager)
    &&& !is_down(key) && !is_up(key) && key != Key::Enter && key != Key::Delete && key
        != Key::Char('c') ==> r is None
}

impl ConnectionsPane {
    pub fn new(id: PaneId) -> (r: Self)
        ensures
            r.id == id,
    {
        ConnectionsPane { id }
    }

    /// The selected connection, when the selection is in bounds.
    pub open spec fn chosen(ctx: &MongoContext) -> Option<int> {
        match ctx.selected_connection {
            Some(i) => if i < ctx.connections@.len() { Some(i as int) } else { None },
            None => None,
        }
    }

    /// Down and up move the selection; Enter connects to the selected
    /// connection; `c` asks for the connection editor; Delete asks to remove
    /// the selected connection. Only the selection of the context changes.
    pub fn handle_key_event(&mut self, key: Key, ctx: &mut MongoContext) -> (r: Option<Action>)
        ensures
            connections_key_step(*old(self), *final(self), key, *old(ctx), *final(ctx), r),
    {
        match key {
            Key::Down | Key::Char('j') => {
                let before = ctx.selected_connection;
                ctx.selected_connection = move_down(before, ctx.connections.len());
                render_if_changed(before, ctx.selected_connection)
            },
            Key::Up | Key::Char('k') => {
                let before = ctx.selected_connection;
                ctx.selected_connection = move_up(before);
                render_if_changed(before, ctx.selected_connection)
            },
            Key::Enter => {
                match ctx.selected_connection {
                    Some(i) => if i < ctx.connections.len() {
                        Some(Action::Connect(ctx.connections[i].uri.clone()))
                    } else {
                        None
                    },
                    None => None,
                }
            },
            Key::Delete => {
                match ctx.selected_connection {
                    Some(i) => if i < ctx.connections.len() {
                        Some(Action::DeleteConnection(i))
                    } else {
                        None
                    },
                    None => None,
                }
            },
            Key::Char('c') => Some(Action::OpenConnectionManager),
            _ => None,
        }
    }
}

/// The query summary; Enter opens the query builder.
pub struct QueryPane {
    pub id: PaneId,
}

/// What a key does to the query pane: Enter asks for the query builder,
/// other keys do nothing.
pub open spec fn query_key_step(
    before: QueryPane,
    after: QueryPane,
    key: Key,
    ctx0: MongoContext,
    ctx1: MongoContext,
    r: Option<Action>,
) -> bool {
    &&& after == before
    &&& ctx1 == ctx0
    &&& r == if key == Key::Enter { Some(Action::OpenQueryBuilder) } else { None }
}

impl QueryPane {
    pub fn new(id: PaneId) -> (r: Self)
        ensures
            r.id == id,
    {
        QueryPane { id }
    }

    /// Enter asks for the query builder; other keys do nothing.
    pub fn handle_key_event(&mut self, key: Key, ctx: &mut MongoContext) -> (r: Option<Action>)
        ensures
            query_key_step(*old(self), *final(self), key, *old(ctx), *final(ctx), r),
    {
        if key == Key::Enter {
            Some(Action::OpenQueryBuilder)
        } else {
            None
        }
    }
}

/// One row of the database tree.
#[derive(Clone, Copy, Debug, PartialEq, Eq, Structural)]
pub enum TreeItem {
    /// Index into the databases.
    Database(usize),
    /// Database index and collection index.
    Collection(usize, usize),
}

/// The rows of the tree for the first `n` databases: each database, followed
/// by its collections when it is expanded.
pub open spec fn tree_upto(dbs: Seq<DatabaseInfo>, expanded: Seq<Seq<char>>, n: int) -> Seq<TreeItem>
    decreases n,
{
    if n <= 0 {
        Seq::empty()
    } else {
        let d = n - 1;
        let head = tree_upto(dbs, expanded, d).push(TreeItem::Database(d as usize));
        if expanded.contains(dbs[d].name@) {
            head + collection_rows(d, dbs[d].collections@.len() as int)
        } else {
            head
        }
    }
}

/// The rows of the first `m` collections of database `d`.
pub open spec fn collection_rows(d: int, m: int) -> Seq<TreeItem> {
    Seq::new(m as nat, |j: int| TreeItem::Collection(d as usize, j as usize))
}

/// The rows of the whole tree.
pub open spec fn tree_of(dbs: Seq<DatabaseInfo>, expanded: Seq<Seq<char>>) -> Seq<TreeItem> {
    tree_upto(dbs, expanded, dbs.len() as int)
}

/// The databases as a tree whose databases expand to their collections.
pub struct DatabasesPane {
    pub id: PaneId,
    /// The names of the expanded databases.
    pub expanded_dbs: Vec<String>,
    pub tree_items: Vec<TreeItem>,
    pub selected_tree_index: Option<usize>,
}

/// Keys that select or expand the row under the cursor.
pub open spec fn is_confirm(k: Key) -> bool {
    k == Key::Enter || k == Key::Char(' ')
}

/// What a key does to the databases pane. Down and up move the cursor. Enter
/// or space on a database expands or collapses it; on a collection it selects
/// that collection, goes back to the first page and asks for its documents.
/// Indices that no longer fit the loaded databases do nothing.
pub open spec fn databases_key_step(
    before: DatabasesPane,
    after: DatabasesPane,
    key: Key,
    ctx0: MongoContext,
    ctx1: MongoContext,
    r: Option<Action>,
) -> bool {
    let sel0 = before.selected_tree_index;
    let sel1 = after.selected_tree_index;
    &&& after.id == before.id
    &&& is_down(key) ==> sel1 == moved_down(sel0, before.tree_items@.len() as int) && r
        == render_if_moved(sel0, sel1) && after == (DatabasesPane { selected_tree_index: sel1, ..before })
        && ctx1 == ctx0
    &&& is_up(key) ==> sel1 == moved_up(sel0) && r == render_if_moved(sel0, sel1) && after == (
    DatabasesPane { selected_tree_index: sel1, ..before }) && ctx1 == ctx0
    &&& !is_down(key) && !is_up(key) && !is_confirm(key) ==> r is None && after == before && ctx1
        == ctx0
    &&& is_confirm(key) ==> match before.current() {
        Some(TreeItem::Database(d)) => if d < ctx0.databases@.len() {
            &&& texts(after.expanded_dbs@) == toggled(
                texts(before.expanded_dbs@),
                ctx0.databases@[d as int].name@,
            )
            &&& after.tree_items@ == tree_of(ctx0.databases@, texts(after.expanded_dbs@))
            &&& sel1 == sel0
            &&& r == Some(Action::Render)
            &&& ctx1 == ctx0
        } else {
            r is None && after == before && ctx1 == ctx0
        },
        Some(TreeItem::Collection(d, c)) => if d < ctx0.databases@.len() && c
            < ctx0.databases@[d as int].collections@.len() {
            &&& ctx1 == (MongoContext {
                selected_db_index: Some(d),
                selected_coll_index: Some(c),
                pagination: PaginationState { current_page: 0, ..ctx0.pagination },
                ..ctx0
            })
            &&& r == Some(Action::RefreshDocuments)
            &&& after == before
        } else {
            r is None && after == before && ctx1 == ctx0
        },
        None => r is None && after == before && ctx1 == ctx0,
    }
}

impl DatabasesPane {
    pub fn new(id: PaneId) -> (r: Self)
        ensures
            r.id == id,
            r.expanded_dbs@.len() == 0,
            r.tree_items@.len() == 0,
            r.selected_tree_index is None,
    {
        DatabasesPane { id, expanded_dbs: Vec::new(), tree_items: Vec::new(), selected_tree_index: None }
    }

    /// Lays the tree out again from the databases of the context.
    pub fn rebuild_tree_items(&mut self, ctx: &MongoContext)
        ensures
            final(self).tree_items@ == tree_of(ctx.databases@, texts(old(self).expanded_dbs@)),
            final(self).id == old(self).id,
            final(self).expanded_dbs == old(self).expanded_dbs,
            final(self).selected_tree_index == old(self).selected_tree_index,
    {
        let ghost dbs = ctx.databases@;
        let ghost exp = texts(self.expanded_dbs@);
        let mut items: Vec<TreeItem> = Vec::new();
        let mut d: usize = 0;
        while d < ctx.databases.len()
            invariant
                0 <= d <= dbs.len(),
                dbs == ctx.databases@,
                exp == texts(self.expanded_dbs@),
                items@ == tree_upto(dbs, exp, d as int),
            decreases dbs.len() - d,
        {
            items.push(TreeItem::Database(d));
            let ghost head = items@;
            assert(head == tree_upto(dbs, exp, d as int).push(TreeItem::Database(d)));
            if contains_text(&self.expanded_dbs, &ctx.databases[d].name) {
                let m = ctx.databases[d].collections.len();
                let mut j: usize = 0;
                while j < m
                    invariant
                        0 <= j <= m,
                        d < dbs.len(),
                        m == dbs[d as int].collections@.len(),
                        dbs == ctx.databases@,
                        items@ == head + collection_rows(d as int, j as int),
                    decreases m - j,
                {
                    items.push(TreeItem::Collection(d, j));
                    j = j + 1;
                    assert(items@ =~= head + collection_rows(d as int, j as int));
                }
            } else {
                assert(items@ =~= head);
            }
            d = d + 1;
            assert(items@ =~= tree_upto(dbs, exp, d as int));
        }
        self.tree_items = items;
    }

    /// When the databases have been loaded, lays the tree out again and puts
    /// the cursor on its first row. Other actions change nothing.
    pub fn update(&mut self, action: &Action, ctx: &MongoContext) -> (r: Option<Action>)
        ensures
            r is None,
            final(self).id == old(self).id,
            final(self).expanded_dbs == old(self).expanded_dbs,
            action is DatabasesLoaded ==> final(self).tree_items@ == tree_of(
                ctx.databases@,
                texts(old(self).expanded_dbs@),
            ) && final(self).selected_tree_index == if final(self).tree_items@.len() > 0 {
                Some(0usize)
            } else {
                None
            },
            !(action is DatabasesLoaded) ==> *final(self) == *old(self),
    {
        if let Action::DatabasesLoaded(_) = action {
            self.rebuild_tree_items(ctx);
            self.selected_tree_index = if self.tree_items.len() > 0 { Some(0) } else { None };
        }
        None
    }

    /// The row under the cursor, when the cursor is in bounds.
    pub open spec fn current(&self) -> Option<TreeItem> {
        match self.selected_tree_index {
            Some(i) => if i < self.tree_items@.len() { Some(self.tree_items@[i as int]) } else { None },
            None => None,
        }
    }

    /// Down and up move the cursor. Enter or space on a database expands or
    /// collapses it; on a collection it selects that collection, goes back to
    /// the first page and asks for its documents. Indices that no longer fit
    /// the loaded databases do nothing.
    pub fn handle_key_event(&mut self, key: Key, ctx: &mut MongoContext) -> (r: Option<Action>)
        ensures
            databases_key_step(*old(self), *final(self), key, *old(ctx), *final(ctx), r),
    {
        match key {
            Key::Down | Key::Char('j') => {
                let before = self.selected_tree_index;
                self.selected_tree_index = move_down(before, self.tree_items.len());
                render_if_changed(before, self.selected_tree_index)
            },
            Key::Up | Key::Char('k') => {
                let before = self.selected_tree_index;
                self.selected_tree_index = move_up(before);
                render_if_changed(before, self.selected_tree_index)
            },
            Key::Enter | Key::Char(' ') => {
                let idx = match self.selected_tree_index {
                    Some(i) => i,
                    None => return None,
                };
                if idx >= self.tree_items.len() {
                    return None;
                }
                match self.tree_items[idx] {
                    TreeItem::Database(d) => {
                        if d >= ctx.databases.len() {
                            return None;
                        }
                        let name = &ctx.databases[d].name;
                        if contains_text(&self.expanded_dbs, name) {
                            self.expanded_dbs = remove_text(&self.expanded_dbs, name);
                        } else {
                            let ghost before = self.expanded_dbs@;
                            self.expanded_dbs.push(name.clone());
                            assert(texts(self.expanded_dbs@) =~= texts(before).push(name@));
                        }
                        self.rebuild_tree_items(ctx);
                        Some(Action::Render)
                    },
                    TreeItem::Collection(d, c) => {
                        if d >= ctx.databases.len() || c >= ctx.databases[d].collections.len() {
                            return None;
                        }
                        ctx.selected_db_index = Some(d);
                        ctx.selected_coll_index = Some(c);
                        ctx.pagination.current_page = 0;
                        Some(Action::RefreshDocuments)
                    },
                }
            },
            _ => None,
        }
    }
}


/// How the page of documents is shown.
#[derive(Clone, Copy, Debug, PartialEq, Eq, Structural)]
pub enum ViewMode {
    Table,
    Json,
}

/// How many of the loaded documents the field list is read from.
pub const FIELD_SAMPLE: usize = 20;

/// How many fields are shown at most right after a load.
pub const DEFAULT_VISIBLE: usize = 5;

/// The field names of `docs[0..d)`, and of the first `j` fields of `docs[d]`.
pub open spec fn keys_before(docs: Seq<Document>, d: int, j: int) -> Set<Seq<char>> {
    Set::new(
        |k: Seq<char>|
            exists|i: int, f: int|
                0 <= i <= d && i < docs.len() && 0 <= f < docs[i].fields@.len() && (i < d || f
                    < j) && #[trigger] docs[i].fields@[f].name@ == k,
    )
}

/// The field names found in the first `n` documents.
pub open spec fn key_set(docs: Seq<Document>, n: int) -> Set<Seq<char>> {
    keys_before(docs, n, 0)
}

/// The fields shown right after a load: `_id` first, then the first other
/// fields in order, five in all at most.
pub open spec fn default_visible(all: Seq<Seq<char>>) -> Seq<Seq<char>> {
    let rest = without_text(all, id_field());
    seq![id_field()] + rest.take(if rest.len() < 4 { rest.len() as int } else { 4 })
}

/// The document under the cursor, when the cursor is in bounds.
pub open spec fn chosen_doc(sel: Option<usize>, docs: Seq<Document>) -> Option<int> {
    match sel {
        Some(i) => if i < docs.len() { Some(i as int) } else { None },
        None => None,
    }
}

/// The parts of the title of the document viewer: connection, database and
/// collection, as far as they are selected, then the document's `_id` (`?`
/// when it has none).
pub open spec fn title_parts(ctx: &MongoContext, doc: Document) -> Seq<Seq<char>> {
    let c = match ctx.selected_connection {
        Some(i) => if i < ctx.connections@.len() { seq![ctx.connections@[i as int].name@] } else { seq![] },
        None => seq![],
    };
    let d = match ctx.selected_db_index {
        Some(i) => if i < ctx.databases@.len() {
            let db = ctx.databases@[i as int];
            seq![db.name@] + match ctx.selected_coll_index {
                Some(j) => if j < db.collections@.len() { seq![db.collections@[j as int].name@] } else { seq![] },
                None => seq![],
            }
        } else {
            seq![]
        },
        None => seq![],
    };
    c + d + seq![
        match doc.value_of(id_field()) {
            Some(v) => v,
            None => seq!['?'],
        },
    ]
}

/// The separator of the viewer title.
pub open spec fn title_sep() -> Seq<char> {
    seq![' ', '/', ' ']
}

fn id_name() -> (r: String)
    ensures
        r@ == id_field(),
{
    proof {
        reveal_strlit("_id");
    }
    let r = String::from_str("_id");
    assert(r@ =~= id_field());
    r
}

/// The page of documents, as a table of chosen fields or as JSON lines.
pub struct DocumentsPane {
    pub id: PaneId,
    pub view_mode: ViewMode,
    /// The row under the cursor, shared by both views.
    pub selected: Option<usize>,
    pub selected_column_index: usize,
    pub visible_fields: Vec<String>,
    pub all_fields: Vec<String>,
}

/// What a key does to the documents pane. `v` switches the view and `f` asks
/// for the field selector. Down and up move the row cursor within the page;
/// left and right move the column cursor in the table view. `y`, `Y`, `p`
/// and `P` ask to copy the selected document's `_id`, its JSON text, the
/// value of the selected column and that column's name; Enter asks to show
/// the selected document. The context does not change.
pub open spec fn documents_key_step(
    before: DocumentsPane,
    after: DocumentsPane,
    key: Key,
    ctx0: MongoContext,
    ctx1: MongoContext,
    r: Option<Action>,
) -> bool {
    let len = ctx0.documents@.len();
    let col = before.selected_column_index;
    let table = before.view_mode == ViewMode::Table;
    let left = key == Key::Left || key == Key::Char('h');
    let right = key == Key::Right || key == Key::Char('l');
    let chosen = chosen_doc(before.selected, ctx0.documents@);
    &&& ctx1 == ctx0
    &&& after.id == before.id
    &&& after.visible_fields == before.visible_fields
    &&& after.all_fields == before.all_fields
    &&& key == Key::Char('v') ==> after.view_mode != before.view_mode && r == Some(Action::Render)
    &&& key != Key::Char('v') ==> after.view_mode == before.view_mode
    &&& key == Key::Char('f') ==> (r matches Some(Action::OpenFieldSelector(a, v)) && texts(a@)
        == texts(before.all_fields@) && texts(v@) == texts(before.visible_fields@))
    &&& is_down(key) && len > 0 ==> r == Some(Action::Render) && after.selected == Some(
        match before.selected {
            Some(i) => if i + 1 >= len { (len - 1) as usize } else { (i + 1) as usize },
            None => 0usize,
        },
    )
    &&& is_up(key) && len > 0 ==> r == Some(Action::Render) && after.selected == Some(
        match before.selected {
            Some(i) => if i == 0 { 0usize } else { (i - 1) as usize },
            None => 0usize,
        },
    )
    &&& (is_down(key) || is_up(key)) && len == 0 ==> r is None
    &&& !((is_down(key) || is_up(key)) && len > 0) ==> after.selected == before.selected
    &&& left ==> if table && col > 0 {
        after.selected_column_index == col - 1 && r == Some(Action::Render)
    } else {
        after.selected_column_index == col && r is None
    }
    &&& right ==> if table && col + 1 < before.visible_fields@.len() {
        after.selected_column_index == col + 1 && r == Some(Action::Render)
    } else {
        after.selected_column_index == col && r is None
    }
    &&& !left && !right ==> after.selected_column_index == col
    &&& key == Key::Enter ==> match chosen {
        Some(i) => (r matches Some(Action::OpenJsonPopup(j, t)) && j@ == ctx0.documents@[i].json@
            && t@ == joined(title_parts(&ctx0, ctx0.documents@[i]), title_sep())),
        None => r is None,
    }
    &&& key == Key::Char('y') ==> match chosen {
        Some(i) => (r matches Some(Action::CopyToClipboard(t)) && t@ == match ctx0.documents@[i].value_of(
            id_field(),
        ) {
            Some(v) => v,
            None => Seq::<char>::empty(),
        }),
        None => r is None,
    }
    &&& key == Key::Char('Y') ==> match chosen {
        Some(i) => (r matches Some(Action::CopyToClipboard(t)) && t@ == ctx0.documents@[i].json@),
        None => r is None,
    }
    &&& key == Key::Char('p') ==> match chosen {
        Some(i) => if table && col < before.visible_fields@.len() {
            (r matches Some(Action::CopyToClipboard(t)) && t@ == match ctx0.documents@[i].value_of(
                before.visible_fields@[col as int]@,
            ) {
                Some(v) => v,
                None => Seq::<char>::empty(),
            })
        } else {
            r is None
        },
        None => r is None,
    }
    &&& key == Key::Char('P') ==> if table && col < before.visible_fields@.len() {
        (r matches Some(Action::CopyToClipboard(t)) && t@ == before.visible_fields@[col as int]@)
    } else {
        r is None
    }
    &&& !(key == Key::Char('v') || key == Key::Char('f') || is_down(key) || is_up(key) || left
        || right || key == Key::Char('y') || key == Key::Char('Y') || key == Key::Char('p') || key
        == Key::Char('P') || key == Key::Enter) ==> r is None
}

impl DocumentsPane {
    /// A table that shows `_id` only, no fields known, no row selected.
    pub fn new(id: PaneId) -> (r: Self)
        ensures
            r.id == id,
            r.view_mode == ViewMode::Table,
            r.selected is None,
            r.selected_column_index == 0,
            texts(r.visible_fields@) == seq![id_field()],
            r.all_fields@.len() == 0,
    {
        let mut visible: Vec<String> = Vec::new();
        visible.push(id_name());
        assert(texts(visible@) =~= seq![id_field()]);
        DocumentsPane {
            id,
            view_mode: ViewMode::Table,
            selected: None,
            selected_column_index: 0,
            visible_fields: visible,
            all_fields: Vec::new(),
        }
    }

    /// Switches between table and JSON view.
    pub fn toggle_view_mode(&mut self)
        ensures
            final(self).view_mode == if old(self).view_mode == ViewMode::Table {
                ViewMode::Json
            } else {
                ViewMode::Table
            },
            final(self).id == old(self).id,
            final(self).selected == old(self).selected,
            final(self).selected_column_index == old(self).selected_column_index,
            final(self).visible_fields == old(self).visible_fields,
            final(self).all_fields == old(self).all_fields,
    {
        self.view_mode = match self.view_mode {
            ViewMode::Table => ViewMode::Json,
            ViewMode::Json => ViewMode::Table,
        };
    }

    /// The fields known after a load.
    pub open spec fn fields_loaded(&self, docs: Seq<Document>) -> bool {
        let n = if docs.len() < FIELD_SAMPLE { docs.len() as int } else { FIELD_SAMPLE as int };
        let all = texts(self.all_fields@);
        &&& strictly_sorted(all)
        &&& all.no_duplicates()
        &&& all.to_set() == key_set(docs, n)
        &&& texts(self.visible_fields@) == default_visible(all)
        &&& self.selected == if docs.len() > 0 { Some(0usize) } else { None }
        &&& self.selected_column_index == 0
    }

    /// Reads the field names of the first documents, sorted and without
    /// repeats, shows the default fields and puts the cursor on the first row.
    pub fn reload_fields(&mut self, docs: &Vec<Document>)
        ensures
            final(self).fields_loaded(docs@),
            final(self).id == old(self).id,
            final(self).view_mode == old(self).view_mode,
    {
        let n: usize = if docs.len() < FIELD_SAMPLE { docs.len() } else { FIELD_SAMPLE };
        let mut all: Vec<String> = Vec::new();
        assert(texts(all@).to_set() =~= keys_before(docs@, 0, 0));
        let mut d: usize = 0;
        while d < n
            invariant
                0 <= d <= n <= docs@.len(),
                strictly_sorted(texts(all@)),
                texts(all@).no_duplicates(),
                texts(all@).to_set() == keys_before(docs@, d as int, 0),
            decreases n - d,
        {
            let doc = &docs[d];
            let mut j: usize = 0;
            while j < doc.fields.len()
                invariant
                    0 <= d < n <= docs@.len(),
                    *doc == docs@[d as int],
                    0 <= j <= doc.fields@.len(),
                    strictly_sorted(texts(all@)),
                    texts(all@).no_duplicates(),
                    texts(all@).to_set() == keys_before(docs@, d as int, j as int),
                decreases doc.fields@.len() - j,
            {
                let name = &doc.fields[j].name;
                let ghost k = name@;
                assert(keys_before(docs@, d as int, j + 1) =~= keys_before(docs@, d as int, j as int).insert(k)) by {
                    assert(docs@[d as int].fields@[j as int].name@ == k);
                }
                if !contains_text(&all, name) {
                    insert_sorted(&mut all, name.clone());
                } else {
                    assert(texts(all@).to_set().contains(k));
                    assert(texts(all@).to_set().insert(k) =~= texts(all@).to_set());
                }
                j = j + 1;
            }
            assert(keys_before(docs@, d as int, j as int) =~= keys_before(docs@, d + 1, 0));
            d = d + 1;
        }
        let id = id_name();
        let mut visible: Vec<String> = Vec::new();
        visible.push(id_name());
        let ghost all_t = texts(all@);
        assert(texts(visible@) =~= default_visible(all_t.subrange(0, 0)));
        let mut i: usize = 0;
        while i < all.len()
            invariant
                0 <= i <= all@.len(),
                all_t == texts(all@),
                id@ == id_field(),
                texts(visible@) == default_visible(all_t.subrange(0, i as int)),
            decreases all@.len() - i,
        {
            let ghost w = without_text(all_t.subrange(0, i as int), id_field());
            let ghost x = all_t[i as int];
            proof {
                reveal(Seq::filter);
                assert(all_t.subrange(0, i + 1).drop_last() =~= all_t.subrange(0, i as int));
                assert(all_t.subrange(0, i + 1).last() == x);
            }
            if all[i] != id && visible.len() < DEFAULT_VISIBLE {
                let ghost before = visible@;
                visible.push(all[i].clone());
                assert(texts(visible@) =~= texts(before).push(x));
                assert(w.push(x).take(w.len() as int + 1) =~= w.take(w.len() as int).push(x));
                assert(texts(visible@) =~= default_visible(all_t.subrange(0, i + 1)));
            } else if all[i] != id {
                assert(texts(visible@).len() == visible@.len());
                assert(w.len() >= 4);
                assert(w.push(x).take(4) =~= w.take(4));
                assert(texts(visible@) =~= default_visible(all_t.subrange(0, i + 1)));
            } else {
                assert(texts(visible@) =~= default_visible(all_t.subrange(0, i + 1)));
            }
            i = i + 1;
        }
        assert(all_t.subrange(0, i as int) =~= all_t);
        self.all_fields = all;
        self.visible_fields = visible;
        self.selected = if docs.len() > 0 { Some(0) } else { None };
        self.selected_column_index = 0;
    }

    /// After a load: reads the fields of the new documents. `ToggleViewMode`
    /// switches the view; `UpdateVisibleFields` shows the given fields from
    /// the first column on. Both ask for a render. Other actions change
    /// nothing.
    pub fn update(&mut self, action: &Action, ctx: &MongoContext) -> (r: Option<Action>)
        ensures
            final(self).id == old(self).id,
            action is DocumentsLoaded ==> final(self).fields_loaded(ctx.documents@)
                && final(self).view_mode == old(self).view_mode && r is None,
            action is ToggleViewMode ==> final(self).view_mode != old(self).view_mode
                && final(self).visible_fields == old(self).visible_fields
                && final(self).all_fields == old(self).all_fields
                && final(self).selected == old(self).selected
                && r == Some(Action::Render),
            action matches Action::UpdateVisibleFields(f) ==> texts(final(self).visible_fields@)
                == texts(f@) && final(self).selected_column_index == 0
                && final(self).all_fields == old(self).all_fields
                && final(self).view_mode == old(self).view_mode
                && final(self).selected == old(self).selected && r == Some(Action::Render),
            !(action is DocumentsLoaded) && !(action is ToggleViewMode) && !(
            action is UpdateVisibleFields) ==> *final(self) == *old(self) && r is None,
    {
        match action {
            Action::DocumentsLoaded(_, _, _) => {
                self.reload_fields(&ctx.documents);
                None
            },
            Action::ToggleViewMode => {
                self.toggle_view_mode();
                Some(Action::Render)
            },
            Action::UpdateVisibleFields(fields) => {
                self.visible_fields = copy_texts(fields);
                self.selected_column_index = 0;
                Some(Action::Render)
            },
            _ => None,
        }
    }

    /// The title of the document viewer for `doc`.
    pub fn viewer_title(ctx: &MongoContext, doc: &Document) -> (r: String)
        ensures
            r@ == joined(title_parts(ctx, *doc), title_sep()),
    {
        let mut parts: Vec<String> = Vec::new();
        match ctx.selected_connection {
            Some(i) => if i < ctx.connections.len() {
                parts.push(ctx.connections[i].name.clone());
            },
            None => {},
        }
        match ctx.selected_db_index {
            Some(i) => if i < ctx.databases.len() {
                parts.push(ctx.databases[i].name.clone());
                match ctx.selected_coll_index {
                    Some(j) => if j < ctx.databases[i].collections.len() {
                        parts.push(ctx.databases[i].collections[j].name.clone());
                    },
                    None => {},
                }
            },
            None => {},
        }
        let id = id_name();
        match doc.get(&id) {
            Some(v) => parts.push(v.clone()),
            None => {
                proof {
                    reveal_strlit("?");
                }
                let q = String::from_str("?");
                assert(q@ =~= seq!['?']);
                parts.push(q);
            },
        }
        assert(texts(parts@) =~= title_parts(ctx, *doc));
        proof {
            reveal_strlit(" / ");
        }
        let sep = " / ";
        assert(sep@ =~= title_sep());
        join_texts(&parts, sep)
    }

    /// `v` switches the view and `f` asks for the field selector. Down and up
    /// move the row cursor within the page; left and right move the column
    /// cursor in the table view. `y`, `Y`, `p` and `P` ask to copy the
    /// selected document's `_id`, its JSON text, the value of the selected
    /// column and that column's name; Enter asks to show the selected
    /// document. The context does not change.
    pub fn handle_key_event(&mut self, key: Key, ctx: &mut MongoContext) -> (r: Option<Action>)
        ensures
            documents_key_step(*old(self), *final(self), key, *old(ctx), *final(ctx), r),
    {
        match key {
            Key::Char('v') => {
                self.toggle_view_mode();
                Some(Action::Render)
            },
            Key::Char('f') => Some(
                Action::OpenFieldSelector(copy_texts(&self.all_fields), copy_texts(&self.visible_fields)),
            ),
            Key::Down | Key::Char('j') => {
                let len = ctx.documents.len();
                if len == 0 {
                    return None;
                }
                let i = match self.selected {
                    Some(i) => if i >= len - 1 { len - 1 } else { i + 1 },
                    None => 0,
                };
                self.selected = Some(i);
                Some(Action::Render)
            },
            Key::Up | Key::Char('k') => {
                let len = ctx.documents.len();
                if len == 0 {
                    return None;
                }
                let i = match self.selected {
                    Some(i) => if i == 0 { 0 } else { i - 1 },
                    None => 0,
                };
                self.selected = Some(i);
                Some(Action::Render)
            },
            Key::Left | Key::Char('h') => {
                if self.view_mode == ViewMode::Table && self.selected_column_index > 0 {
                    self.selected_column_index = self.selected_column_index - 1;
                    Some(Action::Render)
                } else {
                    None
                }
            },
            Key::Right | Key::Char('l') => {
                if self.view_mode == ViewMode::Table && self.selected_column_index
                    < self.visible_fields.len() && self.selected_column_index + 1
                    < self.visible_fields.len() {
                    self.selected_column_index = self.selected_column_index + 1;
                    Some(Action::Render)
                } else {
                    None
                }
            },
            Key::Char('y') => {
                let doc = match self.selected_document(ctx) {
                    Some(d) => d,
                    None => return None,
                };
                let id = id_name();
                match doc.get(&id) {
                    Some(v) => Some(Action::CopyToClipboard(v.clone())),
                    None => Some(Action::CopyToClipboard(String::new())),
                }
            },
            Key::Char('Y') => {
                match self.selected_document(ctx) {
                    Some(doc) => Some(Action::CopyToClipboard(doc.json.clone())),
                    None => None,
                }
            },
            Key::Char('p') => {
                if self.view_mode != ViewMode::Table {
                    return None;
                }
                let doc = match self.selected_document(ctx) {
                    Some(d) => d,
                    None => return None,
                };
                if self.selected_column_index >= self.visible_fields.len() {
                    return None;
                }
                match doc.get(&self.visible_fields[self.selected_column_index]) {
                    Some(v) => Some(Action::CopyToClipboard(v.clone())),
                    None => Some(Action::CopyToClipboard(String::new())),
                }
            },
            Key::Char('P') => {
                if self.view_mode == ViewMode::Table && self.selected_column_index
                    < self.visible_fields.len() {
                    Some(
                        Action::CopyToClipboard(
                            self.visible_fields[self.selected_column_index].clone(),
                        ),
                    )
                } else {
                    None
                }
            },
            Key::Enter => {
                match self.selected_document(ctx) {
                    Some(doc) => Some(
                        Action::OpenJsonPopup(doc.json.clone(), Self::viewer_title(ctx, doc)),
                    ),
                    None => None,
                }
            },
            _ => None,
        }
    }

    /// The parts of the pane title: the selected connection, then the
    /// selected database and collection when both are selected, as far as
    /// each is in bounds.
    pub open spec fn breadcrumb_parts(ctx: &MongoContext) -> Seq<Seq<char>> {
        let c = match ctx.selected_connection {
            Some(i) => if i < ctx.connections@.len() { seq![ctx.connections@[i as int].name@] } else { seq![] },
            None => seq![],
        };
        let d = match (ctx.selected_db_index, ctx.selected_coll_index) {
            (Some(i), Some(j)) => if i < ctx.databases@.len() {
                let db = ctx.databases@[i as int];
                seq![db.name@] + if j < db.collections@.len() { seq![db.collections@[j as int].name@] } else { seq![] }
            } else {
                seq![]
            },
            _ => seq![],
        };
        c + d
    }

    /// The pane title: `[4] ` and the breadcrumb of what is selected, or
    /// `[4] Documents` when nothing is.
    pub fn breadcrumb(ctx: &MongoContext) -> (r: String)
        ensures
            r@ == if Self::breadcrumb_parts(ctx).len() == 0 {
                "[4] Documents"@
            } else {
                "[4] "@ + joined(Self::breadcrumb_parts(ctx), title_sep())
            },
    {
        let mut parts: Vec<String> = Vec::new();
        match ctx.selected_connection {
            Some(i) => if i < ctx.connections.len() {
                parts.push(ctx.connections[i].name.clone());
            },
            None => {},
        }
        match (ctx.selected_db_index, ctx.selected_coll_index) {
            (Some(i), Some(j)) => if i < ctx.databases.len() {
                parts.push(ctx.databases[i].name.clone());
                if j < ctx.databases[i].collections.len() {
                    parts.push(ctx.databases[i].collections[j].name.clone());
                }
            },
            _ => {},
        }
        assert(texts(parts@) =~= Self::breadcrumb_parts(ctx));
        if parts.len() == 0 {
            return String::from_str("[4] Documents");
        }
        proof {
            reveal_strlit(" / ");
        }
        let sep = " / ";
        assert(sep@ =~= title_sep());
        let mut r = String::from_str("[4] ");
        let tail = join_texts(&parts, sep);
        r.append(tail.as_str());
        r
    }

    /// The document under the cursor, when the cursor is in bounds.
    pub fn selected_document<'a>(&self, ctx: &'a MongoContext) -> (r: Option<&'a Document>)
        ensures
            match chosen_doc(self.selected, ctx.documents@) {
                Some(i) => r == Some(&ctx.documents@[i]),
                None => r is None,
            },
    {
        match self.selected {
            Some(i) => if i < ctx.documents.len() {
                Some(&ctx.documents[i])
            } else {
                None
            },
            None => None,
        }
    }
}

} // verus!
