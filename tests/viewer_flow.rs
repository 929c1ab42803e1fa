use mongo_tui::action::{Action, FetchRequest, Key, Outcome, Request};
use mongo_tui::model::{CollectionInfo, DatabaseInfo, DocField, Document};
use mongo_tui::popup::PopupState;
use mongo_tui::query::QueryField;
use mongo_tui::registry::PaneSlot;
use mongo_tui::viewer::MongoViewer;

fn type_text(v: &mut MongoViewer, text: &str) {
    for c in text.chars() {
        v.handle_key_events(Key::Char(c));
    }
}

fn doc(id: u32) -> Document {
    Document {
        fields: vec![
            DocField { name: "_id".to_string(), value: id.to_string() },
            DocField { name: "name".to_string(), value: format!("user{}", id) },
        ],
        json: format!("{{\"_id\": {}}}", id),
    }
}

fn one_db() -> Vec<DatabaseInfo> {
    vec![DatabaseInfo {
        name: "db1".to_string(),
        collections: vec![CollectionInfo { name: "users".to_string() }],
    }]
}

fn fetch_of(o: &Outcome) -> FetchRequest {
    match &o.request {
        Some(Request::FetchDocuments(q)) => q.clone(),
        other => panic!("expected a fetch, got {:?}", other),
    }
}

fn documents_pane_fields(v: &MongoViewer) -> Vec<String> {
    match &v.registry.panes[3] {
        PaneSlot::Documents(p) => p.visible_fields.clone(),
        _ => panic!("fourth pane is not the documents pane"),
    }
}

/// Loads `db1.users`, selects it and sets the limit through the builder.
fn browse_users(v: &mut MongoViewer, limit: &str) -> Outcome {
    v.update(Action::DatabasesLoaded(one_db()));
    v.update(Action::SelectDatabase(0));
    v.update(Action::SelectCollection(0));
    v.update(Action::OpenQueryBuilder);
    for _ in 0..3 {
        v.handle_key_events(Key::Tab);
    }
    type_text(v, limit);
    let r = v.handle_key_events(Key::Enter);
    assert_eq!(r, Some(Action::RefreshDocuments));
    v.update(Action::RefreshDocuments)
}

#[test]
fn cycle_next_follows_registration_order() {
    let mut v = MongoViewer::new();
    let ids = [v.conn_pane_id, v.db_pane_id, v.query_pane_id, v.doc_pane_id];
    assert_eq!(v.registry.active_pane_id(), Some(ids[0]));
    for n in 1..11usize {
        assert_eq!(v.handle_key_events(Key::Tab), Some(Action::Render));
        assert_eq!(v.registry.active_pane_id(), Some(ids[n % 4]));
    }
}

#[test]
fn numeric_keys_focus_panes_directly() {
    let mut v = MongoViewer::new();
    v.handle_key_events(Key::Char('3'));
    assert_eq!(v.registry.active_pane_id(), Some(v.query_pane_id));
    v.handle_key_events(Key::Char('4'));
    assert_eq!(v.registry.active_pane_id(), Some(v.doc_pane_id));
    v.handle_key_events(Key::Char('1'));
    assert_eq!(v.registry.active_pane_id(), Some(v.conn_pane_id));
    assert_eq!(v.handle_key_events(Key::Char('q')), Some(Action::Quit));
}

#[test]
fn open_popup_takes_every_key() {
    let mut v = MongoViewer::new();
    v.update(Action::SaveConnection("local".to_string(), "mongodb://x".to_string()));
    v.update(Action::SaveConnection("other".to_string(), "mongodb://y".to_string()));
    assert_eq!(v.context.selected_connection, Some(1));
    assert_eq!(v.handle_key_events(Key::Char('?')), Some(Action::Render));
    assert!(matches!(v.popup_state, PopupState::Help(Some(0))));
    v.handle_key_events(Key::Char('k'));
    v.handle_key_events(Key::Tab);
    v.handle_key_events(Key::Char('2'));
    assert_eq!(v.context.selected_connection, Some(1));
    assert_eq!(v.registry.active_pane_id(), Some(v.conn_pane_id));
    assert_eq!(v.handle_key_events(Key::Esc), Some(Action::Render));
    assert!(matches!(v.popup_state, PopupState::Closed));
    assert_eq!(v.handle_key_events(Key::Char('k')), Some(Action::Render));
    assert_eq!(v.context.selected_connection, Some(0));
}

#[test]
fn refresh_requests_skip_of_page_times_limit() {
    let mut v = MongoViewer::new();
    let o = browse_users(&mut v, "7");
    let q = fetch_of(&o);
    assert_eq!(q.options.skip, Some(0));
    assert_eq!(q.options.limit, Some(7));
    assert_eq!(q.db_name, "db1");
    assert_eq!(q.collection_name, "users");
    assert_eq!(q.generation, 1);
    v.update(Action::DocumentsLoaded(1, vec![doc(1)], 30));
    v.context.pagination.current_page = 3;
    let q = fetch_of(&v.update(Action::RefreshDocuments));
    assert_eq!(q.options.skip, Some(21));
    assert_eq!(q.generation, 2);
    assert_eq!(v.context.pagination.total_count, None);
}

#[test]
fn next_page_stops_at_last_page() {
    let mut v = MongoViewer::new();
    browse_users(&mut v, "5");
    v.update(Action::DocumentsLoaded(1, vec![doc(1)], 11));
    v.context.pagination.current_page = 2;
    assert_eq!(v.update(Action::NextPage).follow_up, None);
    assert_eq!(v.context.pagination.current_page, 2);
    v.context.pagination.current_page = 1;
    assert_eq!(v.update(Action::NextPage).follow_up, Some(Action::RefreshDocuments));
    assert_eq!(v.context.pagination.current_page, 2);
}

#[test]
fn previous_page_stops_at_first_page() {
    let mut v = MongoViewer::new();
    assert_eq!(v.update(Action::PreviousPage).follow_up, None);
    v.context.pagination.current_page = 2;
    assert_eq!(v.update(Action::PreviousPage).follow_up, Some(Action::RefreshDocuments));
    assert_eq!(v.context.pagination.current_page, 1);
}

#[test]
fn field_selector_toggle_reaches_documents_pane_and_stays_open() {
    let mut v = MongoViewer::new();
    browse_users(&mut v, "5");
    v.update(Action::DocumentsLoaded(1, vec![doc(1), doc(2)], 2));
    assert_eq!(documents_pane_fields(&v), vec!["_id".to_string(), "name".to_string()]);
    assert_eq!(v.registry.active_pane_id(), Some(v.doc_pane_id));
    assert_eq!(v.handle_key_events(Key::Char('f')), Some(Action::Render));
    v.handle_key_events(Key::Char('j'));
    let sent = v.handle_key_events(Key::Enter).expect("a field update");
    assert_eq!(sent, Action::UpdateVisibleFields(vec!["_id".to_string()]));
    assert!(matches!(v.popup_state, PopupState::FieldSelector(Some(1), _, _)));
    v.update(sent);
    assert_eq!(documents_pane_fields(&v), vec!["_id".to_string()]);
    assert!(matches!(v.popup_state, PopupState::FieldSelector(..)));
    let again = v.handle_key_events(Key::Char(' ')).expect("a field update");
    assert_eq!(again, Action::UpdateVisibleFields(vec!["_id".to_string(), "name".to_string()]));
}

#[test]
fn bad_filter_keeps_builder_open_and_marks_only_filter() {
    let mut v = MongoViewer::new();
    v.update(Action::DatabasesLoaded(one_db()));
    v.update(Action::SelectDatabase(0));
    v.update(Action::SelectCollection(0));
    v.update(Action::OpenQueryBuilder);
    type_text(&mut v, "{bad");
    assert_eq!(v.handle_key_events(Key::Enter), Some(Action::Render));
    assert!(matches!(v.popup_state, PopupState::QueryBuilder { active_field: QueryField::Filter }));
    let e = &v.context.input_validation_errors;
    assert!(e.filter.is_some());
    assert!(e.sort.is_none() && e.projection.is_none() && e.limit.is_none());
    assert!(!v.is_loading);
    assert_eq!(v.context.fetch_generation, 0);
    v.handle_key_events(Key::Backspace);
    assert!(v.context.input_validation_errors.filter.is_none());
}

#[test]
fn browse_scenario_pages_through_ten_documents() {
    let mut v = MongoViewer::new();
    v.update(Action::SaveConnection("local".to_string(), "uri".to_string()));
    assert_eq!(v.handle_key_events(Key::Enter), Some(Action::Connect("uri".to_string())));
    let o = v.update(Action::Connect("uri".to_string()));
    assert_eq!(o.request, Some(Request::Connect("uri".to_string())));
    assert!(v.is_loading);
    assert_eq!(v.update(Action::RefreshDatabases).request, Some(Request::ListDatabases));
    v.update(Action::DatabasesLoaded(one_db()));
    assert!(!v.is_loading);
    assert_eq!(v.registry.active_pane_id(), Some(v.db_pane_id));
    assert_eq!(v.handle_key_events(Key::Enter), Some(Action::Render));
    v.handle_key_events(Key::Char('j'));
    assert_eq!(v.handle_key_events(Key::Enter), Some(Action::RefreshDocuments));
    assert_eq!(v.context.selected_db_index, Some(0));
    assert_eq!(v.context.selected_coll_index, Some(0));
    v.update(Action::OpenQueryBuilder);
    for _ in 0..3 {
        v.handle_key_events(Key::Tab);
    }
    type_text(&mut v, "5");
    assert_eq!(v.handle_key_events(Key::Enter), Some(Action::RefreshDocuments));
    let q = fetch_of(&v.update(Action::RefreshDocuments));
    assert_eq!(q.options.limit, Some(5));
    assert_eq!(q.options.skip, Some(0));
    let page: Vec<Document> = (0..5).map(doc).collect();
    v.update(Action::DocumentsLoaded(q.generation, page.clone(), 10));
    assert_eq!(v.context.documents, page);
    assert_eq!(v.context.pagination.total_count, Some(10));
    assert_eq!(v.context.pagination.current_page, 0);
    let o = v.update(Action::NextPage);
    assert_eq!(o.follow_up, Some(Action::RefreshDocuments));
    let q2 = fetch_of(&v.update(Action::RefreshDocuments));
    assert_eq!(q2.options.skip, Some(5));
    v.update(Action::DocumentsLoaded(q2.generation, (5..10).map(doc).collect(), 10));
    assert_eq!(v.update(Action::NextPage), Outcome { follow_up: None, request: None });
    assert_eq!(v.context.pagination.current_page, 1);
}

#[test]
fn error_replaces_query_builder_and_escape_closes_it() {
    let mut v = MongoViewer::new();
    v.update(Action::OpenQueryBuilder);
    v.update(Action::Connect("uri".to_string()));
    v.update(Action::Error("connection refused".to_string()));
    assert!(matches!(&v.popup_state, PopupState::Error(m) if m == "connection refused"));
    assert!(!v.is_loading);
    assert_eq!(v.handle_key_events(Key::Char('x')), None);
    assert_eq!(v.handle_key_events(Key::Esc), Some(Action::Render));
    assert!(matches!(v.popup_state, PopupState::Closed));
}

#[test]
fn stale_documents_are_dropped() {
    let mut v = MongoViewer::new();
    browse_users(&mut v, "5");
    let newer = fetch_of(&v.update(Action::RefreshDocuments));
    assert_eq!(newer.generation, 2);
    v.update(Action::DocumentsLoaded(1, vec![doc(9)], 1));
    assert!(v.context.documents.is_empty());
    assert!(v.is_loading);
    v.update(Action::DocumentsLoaded(2, vec![doc(3)], 1));
    assert_eq!(v.context.documents, vec![doc(3)]);
    assert!(!v.is_loading);
}

#[test]
fn invalid_limit_on_refresh_gives_error_and_no_fetch() {
    let mut v = MongoViewer::new();
    v.update(Action::DatabasesLoaded(one_db()));
    v.update(Action::SelectDatabase(0));
    v.update(Action::SelectCollection(0));
    v.context.limit_input = "ten".chars().collect();
    let o = v.update(Action::RefreshDocuments);
    assert!(matches!(o.follow_up, Some(Action::Error(_))));
    assert_eq!(o.request, None);
    assert!(v.context.input_validation_errors.limit.is_some());
    v.update(o.follow_up.unwrap());
    assert!(matches!(v.popup_state, PopupState::Error(_)));
}

#[test]
fn refresh_without_selection_does_nothing() {
    let mut v = MongoViewer::new();
    assert_eq!(v.update(Action::RefreshDocuments), Outcome { follow_up: None, request: None });
    v.update(Action::DatabasesLoaded(one_db()));
    v.update(Action::SelectDatabase(0));
    v.update(Action::SelectCollection(4));
    assert_eq!(v.update(Action::RefreshDocuments), Outcome { follow_up: None, request: None });
}

#[test]
fn connection_editor_saves_only_complete_entries() {
    let mut v = MongoViewer::new();
    assert_eq!(v.handle_key_events(Key::Char('c')), Some(Action::Render));
    assert!(matches!(v.popup_state, PopupState::ConnectionManager { .. }));
    type_text(&mut v, "lo");
    assert_eq!(v.handle_key_events(Key::Enter), None);
    v.handle_key_events(Key::Tab);
    type_text(&mut v, "mongodb://h");
    v.handle_key_events(Key::Backspace);
    let r = v.handle_key_events(Key::Enter);
    assert_eq!(
        r,
        Some(Action::SaveConnection("lo".to_string(), "mongodb://".to_string()))
    );
    assert!(matches!(v.popup_state, PopupState::Closed));
    let o = v.update(r.unwrap());
    assert_eq!(o.request, Some(Request::PersistConnections));
    assert_eq!(v.context.connections.len(), 1);
    assert_eq!(v.context.connections[0].uri, "mongodb://");
}

#[test]
fn delete_connection_keeps_selection_in_bounds() {
    let mut v = MongoViewer::new();
    v.update(Action::SaveConnection("a".to_string(), "1".to_string()));
    v.update(Action::SaveConnection("b".to_string(), "2".to_string()));
    assert_eq!(v.handle_key_events(Key::Delete), Some(Action::DeleteConnection(1)));
    v.update(Action::DeleteConnection(1));
    assert_eq!(v.context.connections.len(), 1);
    assert_eq!(v.context.selected_connection, Some(0));
    assert_eq!(v.update(Action::DeleteConnection(5)), Outcome { follow_up: None, request: None });
    v.update(Action::DeleteConnection(0));
    assert_eq!(v.context.selected_connection, None);
}

#[test]
fn query_pane_opens_builder_and_tab_cycles_fields() {
    let mut v = MongoViewer::new();
    v.handle_key_events(Key::Char('3'));
    assert_eq!(v.handle_key_events(Key::Enter), Some(Action::Render));
    assert!(matches!(v.popup_state, PopupState::QueryBuilder { active_field: QueryField::Filter }));
    v.handle_key_events(Key::Tab);
    assert!(matches!(v.popup_state, PopupState::QueryBuilder { active_field: QueryField::Sort }));
    v.handle_key_events(Key::Tab);
    assert!(matches!(v.popup_state, PopupState::QueryBuilder { active_field: QueryField::Projection }));
    v.handle_key_events(Key::Tab);
    assert!(matches!(v.popup_state, PopupState::QueryBuilder { active_field: QueryField::Limit }));
    v.handle_key_events(Key::Tab);
    assert!(matches!(v.popup_state, PopupState::QueryBuilder { active_field: QueryField::Filter }));
    type_text(&mut v, "{\"age\": 3}");
    assert_eq!(v.handle_key_events(Key::Esc), Some(Action::Render));
    assert_eq!(v.context.query_input.iter().collect::<String>(), "{\"age\": 3}");
}

#[test]
fn json_viewer_scrolls_and_shows_document_title() {
    let mut v = MongoViewer::new();
    v.update(Action::SaveConnection("local".to_string(), "uri".to_string()));
    browse_users(&mut v, "5");
    v.update(Action::DocumentsLoaded(1, vec![doc(7)], 1));
    assert_eq!(v.handle_key_events(Key::Enter), Some(Action::Render));
    match &v.popup_state {
        PopupState::JsonViewer(json, title, 0) => {
            assert_eq!(json, "{\"_id\": 7}");
            assert_eq!(title, "local / db1 / users / 7");
        },
        other => panic!("no viewer: {:?}", matches!(other, PopupState::Closed)),
    }
    v.handle_key_events(Key::Up);
    v.handle_key_events(Key::Down);
    v.handle_key_events(Key::Char('j'));
    assert!(matches!(v.popup_state, PopupState::JsonViewer(_, _, 2)));
    v.handle_key_events(Key::Esc);
    assert_eq!(v.handle_key_events(Key::Char('y')), Some(Action::CopyToClipboard("7".to_string())));
    let o = v.update(Action::CopyToClipboard("7".to_string()));
    assert_eq!(o.request, Some(Request::CopyToClipboard("7".to_string())));
}

#[test]
fn tick_advances_spinner_only_while_loading() {
    let mut v = MongoViewer::new();
    v.update(Action::Tick);
    assert_eq!(v.loading_frame, 0);
    v.update(Action::RefreshDatabases);
    v.update(Action::Tick);
    v.update(Action::Tick);
    assert_eq!(v.loading_frame, 2);
}

#[test]
fn informational_popups_close_on_enter() {
    let mut v = MongoViewer::new();
    v.handle_key_events(Key::Char('?'));
    v.handle_key_events(Key::Down);
    assert!(matches!(v.popup_state, PopupState::Help(Some(1))));
    assert_eq!(v.handle_key_events(Key::Enter), Some(Action::Render));
    assert!(matches!(v.popup_state, PopupState::Closed));
    v.update(Action::OpenJsonPopup("{}".to_string(), "t".to_string()));
    assert!(matches!(v.popup_state, PopupState::JsonViewer(_, _, 0)));
    assert_eq!(v.handle_key_events(Key::Char('x')), None);
    assert_eq!(v.handle_key_events(Key::Enter), Some(Action::Render));
    assert!(matches!(v.popup_state, PopupState::Closed));
    v.update(Action::Help);
    assert!(matches!(v.popup_state, PopupState::Help(Some(0))));
    v.update(Action::ClosePopup);
    assert!(matches!(v.popup_state, PopupState::Closed));
}

#[test]
fn zero_limit_is_accepted_and_pages_by_default_size() {
    let mut v = MongoViewer::new();
    let q = fetch_of(&browse_users(&mut v, "0"));
    assert_eq!(q.options.limit, Some(10));
    assert!(matches!(v.popup_state, PopupState::Closed));
    v.update(Action::DocumentsLoaded(1, vec![doc(1)], 25));
    assert_eq!(v.update(Action::NextPage).follow_up, Some(Action::RefreshDocuments));
    assert_eq!(fetch_of(&v.update(Action::RefreshDocuments)).options.skip, Some(10));
}

#[test]
fn bad_filter_with_zero_limit_marks_only_filter() {
    let mut v = MongoViewer::new();
    v.update(Action::OpenQueryBuilder);
    type_text(&mut v, "{bad");
    for _ in 0..3 {
        v.handle_key_events(Key::Tab);
    }
    type_text(&mut v, "0");
    assert_eq!(v.handle_key_events(Key::Enter), Some(Action::Render));
    let e = &v.context.input_validation_errors;
    assert!(e.filter.is_some());
    assert!(e.limit.is_none() && e.sort.is_none() && e.projection.is_none());
}

#[test]
fn stale_fetch_failure_is_dropped() {
    let mut v = MongoViewer::new();
    browse_users(&mut v, "5");
    v.update(Action::RefreshDocuments);
    v.update(Action::FetchFailed(1, "old".to_string()));
    assert!(matches!(v.popup_state, PopupState::Closed));
    assert!(v.is_loading);
    v.update(Action::FetchFailed(2, "new".to_string()));
    assert!(matches!(&v.popup_state, PopupState::Error(m) if m == "new"));
    assert!(!v.is_loading);
}

#[test]
fn keys_reach_the_focused_documents_pane() {
    let mut v = MongoViewer::new();
    browse_users(&mut v, "5");
    v.update(Action::DocumentsLoaded(1, vec![doc(1)], 1));
    assert_eq!(v.handle_key_events(Key::Char('v')), Some(Action::Render));
    match &v.registry.panes[3] {
        PaneSlot::Documents(p) => assert_eq!(p.view_mode, mongo_tui::panes::ViewMode::Json),
        _ => panic!("fourth pane is not the documents pane"),
    }
    assert_eq!(v.handle_key_events(Key::Char('f')), Some(Action::Render));
    assert!(matches!(v.popup_state, PopupState::FieldSelector(Some(0), _, _)));
}

#[test]
fn next_page_keeps_selection_and_inputs() {
    let mut v = MongoViewer::new();
    browse_users(&mut v, "5");
    v.update(Action::DocumentsLoaded(1, vec![doc(1)], 10));
    v.update(Action::NextPage);
    assert_eq!(v.context.selected_db_index, Some(0));
    assert_eq!(v.context.selected_coll_index, Some(0));
    assert_eq!(v.context.limit_input, vec!['5']);
    let q = fetch_of(&v.update(Action::RefreshDocuments));
    assert_eq!((q.db_name.as_str(), q.collection_name.as_str(), q.options.skip), ("db1", "users", Some(5)));
}
