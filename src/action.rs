use crate::model::{DatabaseInfo, Document};
use vstd::prelude::*;

verus! {

/// A key press as the browser reads it.
#[derive(Clone, Copy, Debug, PartialEq, Eq, Structural)]
pub enum Key {
    Char(char),
    Enter,
    Esc,
    Tab,
    Backspace,
    Delete,
    Up,
    Down,
    Left,
    Right,
    Other,
}

/// Every intent and every result that may change the browser's state.
#[derive(Clone, Debug, PartialEq, Eq)]
pub enum Action {
    Tick,
    Render,
    Resize(u16, u16),
    Suspend,
    Resume,
    Quit,
    ClearScreen,
    Error(String),
    Help,
    Connect(String),
    SelectDatabase(usize),
    SelectCollection(usize),
    RefreshDatabases,
    RefreshDocuments,
    NextPage,
    PreviousPage,
    ToggleViewMode,
    /// Document text and title.
    OpenJsonPopup(String, String),
    OpenConnectionManager,
    OpenQueryBuilder,
    /// All known fields and the visible ones.
    OpenFieldSelector(Vec<String>, Vec<String>),
    UpdateVisibleFields(Vec<String>),
    ClosePopup,
    CopyToClipboard(String),
    /// Name and URI.
    SaveConnection(String, String),
    DeleteConnection(usize),
    DatabasesLoaded(Vec<DatabaseInfo>),
    /// The fetch generation it answers, one page of documents, and how many
    /// documents match the filter in all.
    DocumentsLoaded(u64, Vec<Document>, u64),
    /// The fetch generation that failed, and why.
    FetchFailed(u64, String),
    SchemaLoaded(Vec<String>),
    ErrorMsg(String),
}

/// The options of one document fetch. Filter, projection and sort are JSON
/// object texts; an absent one asks for nothing.
#[derive(Clone, Debug, PartialEq, Eq)]
pub struct FindOptions {
    pub filter: Option<String>,
    pub projection: Option<String>,
    pub sort: Option<String>,
    pub limit: Option<i64>,
    pub skip: Option<u64>,
}

/// One page fetch and the matching count, tagged with its generation.
#[derive(Clone, Debug, PartialEq, Eq)]
pub struct FetchRequest {
    pub generation: u64,
    pub db_name: String,
    pub collection_name: String,
    pub options: FindOptions,
}

/// Outside work that the browser asks its host to do. Each answer comes back
/// as an action.
#[derive(Clone, Debug, PartialEq, Eq)]
pub enum Request {
    /// Connect to the URI; answer `RefreshDatabases`, or `Error`.
    Connect(String),
    /// List databases and their collections; answer `DatabasesLoaded`, or `Error`.
    ListDatabases,
    /// Fetch a page and count the matches; answer as `fetch_answer` says.
    FetchDocuments(FetchRequest),
    /// Put the text on the clipboard.
    CopyToClipboard(String),
    /// Store the connection list.
    PersistConnections,
}

/// What one dispatched action leads to: at most one follow-up action and at
/// most one piece of outside work.
#[derive(Clone, Debug, PartialEq, Eq)]
pub struct Outcome {
    pub follow_up: Option<Action>,
    pub request: Option<Request>,
}

/// The answer to one fetch of generation `generation`: the page and the
/// count when both the find and the count succeeded; otherwise the failure,
/// the find's first.
pub fn fetch_answer(
    generation: u64,
    found: Result<Vec<Document>, String>,
    counted: Result<u64, String>,
) -> (r: Action)
    ensures
        match (found, counted) {
            (Ok(docs), Ok(n)) => r == Action::DocumentsLoaded(generation, docs, n),
            (Err(e), _) => r == Action::FetchFailed(generation, e),
            (Ok(_), Err(e)) => r == Action::FetchFailed(generation, e),
        },
{
    match found {
        Err(e) => Action::FetchFailed(generation, e),
        Ok(docs) => match counted {
            Ok(n) => Action::DocumentsLoaded(generation, docs, n),
            Err(e) => Action::FetchFailed(generation, e),
        },
    }
}

} // verus!
