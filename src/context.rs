use crate::action::Key;
use crate::model::{Connection, DatabaseInfo, Document};
use crate::query::{QueryField, ValidationErrors};
use vstd::prelude::*;

verus! {

/// Which page of the result is shown, and how many documents match in all
/// once a count has come back.
#[derive(Clone, Copy, Debug, PartialEq, Eq, Structural)]
pub struct PaginationState {
    pub current_page: usize,
    pub total_count: Option<u64>,
}

/// What a key does to a text input: a character is appended, Backspace takes
/// the last one off, any other key leaves the text as it is.
pub open spec fn edited(s: Seq<char>, key: Key) -> Seq<char> {
    match key {
        Key::Char(c) => s.push(c),
        Key::Backspace => if s.len() > 0 { s.drop_last() } else { s },
        _ => s,
    }
}

/// Applies a key to a text input.
pub fn edit_text(s: &mut Vec<char>, key: Key)
    ensures
        final(s)@ == edited(old(s)@, key),
{
    match key {
        Key::Char(c) => s.push(c),
        Key::Backspace => {
            if s.len() > 0 {
                s.pop();
            }
        },
        _ => {},
    }
}

/// The state that every pane and popup reads: connections, loaded metadata,
/// the current page of documents, the selections, the query inputs and the
/// paging counters.
pub struct MongoContext {
    pub connections: Vec<Connection>,
    pub databases: Vec<DatabaseInfo>,
    pub documents: Vec<Document>,
    pub selected_connection: Option<usize>,
    pub selected_db_index: Option<usize>,
    pub selected_coll_index: Option<usize>,
    pub query_input: Vec<char>,
    pub projection_input: Vec<char>,
    pub sort_input: Vec<char>,
    pub limit_input: Vec<char>,
    pub input_validation_errors: ValidationErrors,
    pub pagination: PaginationState,
    /// The generation of the latest document fetch; an answer to any other is stale.
    pub fetch_generation: u64,
}

impl MongoContext {
    /// The text of one query input.
    pub open spec fn input_of(&self, f: QueryField) -> Seq<char> {
        match f {
            QueryField::Filter => self.query_input@,
            QueryField::Sort => self.sort_input@,
            QueryField::Projection => self.projection_input@,
            QueryField::Limit => self.limit_input@,
        }
    }

    /// The loaded data and the selections are those of `other`.
    pub open spec fn same_data(&self, other: &MongoContext) -> bool {
        &&& self.connections == other.connections
        &&& self.databases == other.databases
        &&& self.documents == other.documents
        &&& self.selected_connection == other.selected_connection
        &&& self.selected_db_index == other.selected_db_index
        &&& self.selected_coll_index == other.selected_coll_index
        &&& self.fetch_generation == other.fetch_generation
    }

    /// The query inputs and their marks are those of `other`.
    pub open spec fn same_inputs(&self, other: &MongoContext) -> bool {
        &&& self.query_input == other.query_input
        &&& self.projection_input == other.projection_input
        &&& self.sort_input == other.sort_input
        &&& self.limit_input == other.limit_input
        &&& self.input_validation_errors == other.input_validation_errors
    }

    /// The database and collection that the selection names, when both
    /// indices are set and in bounds.
    pub open spec fn target(&self) -> Option<(int, int)> {
        match (self.selected_db_index, self.selected_coll_index) {
            (Some(d), Some(c)) => if d < self.databases@.len() && c
                < self.databases@[d as int].collections@.len() {
                Some((d as int, c as int))
            } else {
                None
            },
            _ => None,
        }
    }

    /// Nothing loaded, nothing selected, empty inputs, first page.
    pub fn new() -> (r: MongoContext)
        ensures
            r.connections@.len() == 0,
            r.databases@.len() == 0,
            r.documents@.len() == 0,
            r.selected_connection is None,
            r.selected_db_index is None,
            r.selected_coll_index is None,
            forall|f: QueryField| #[trigger] r.input_of(f).len() == 0,
            r.input_validation_errors.is_clear(),
            r.pagination == (PaginationState { current_page: 0, total_count: None }),
            r.fetch_generation == 0,
    {
        MongoContext {
            connections: Vec::new(),
            databases: Vec::new(),
            documents: Vec::new(),
            selected_connection: None,
            selected_db_index: None,
            selected_coll_index: None,
            query_input: Vec::new(),
            projection_input: Vec::new(),
            sort_input: Vec::new(),
            limit_input: Vec::new(),
            input_validation_errors: ValidationErrors::none(),
            pagination: PaginationState { current_page: 0, total_count: None },
            fetch_generation: 0,
        }
    }

    /// Applies a key to one query input and takes its mark off; nothing else
    /// changes.
    pub fn edit_input(&mut self, f: QueryField, key: Key)
        ensures
            final(self).input_of(f) == edited(old(self).input_of(f), key),
            forall|g: QueryField| g != f ==> #[trigger] final(self).input_of(g) == old(self).input_of(g),
            !final(self).input_validation_errors.marked(f),
            forall|g: QueryField|
                g != f ==> #[trigger] final(self).input_validation_errors.marked(g)
                    == old(self).input_validation_errors.marked(g),
            final(self).same_data(old(self)),
            final(self).pagination == old(self).pagination,
    {
        match f {
            QueryField::Filter => edit_text(&mut self.query_input, key),
            QueryField::Sort => edit_text(&mut self.sort_input, key),
            QueryField::Projection => edit_text(&mut self.projection_input, key),
            QueryField::Limit => edit_text(&mut self.limit_input, key),
        }
        self.input_validation_errors.remove(f);
    }

    /// The names of the selected database and collection, when the selection
    /// is valid.
    pub fn target_names(&self) -> (r: Option<(String, String)>)
        ensures
            r is Some <==> self.target() is Some,
            r matches Some((d, c)) ==> d@ == self.databases@[self.target()->Some_0.0].name@
                && c@ == self.databases@[self.target()->Some_0.0].collections@[self.target()->Some_0.1].name@,
    {
        match (self.selected_db_index, self.selected_coll_index) {
            (Some(d), Some(c)) => {
                if d < self.databases.len() && c < self.databases[d].collections.len() {
                    Some((self.databases[d].name.clone(), self.databases[d].collections[c].name.clone()))
                } else {
                    None
                }
            },
            _ => None,
        }
    }
}

} // verus!
