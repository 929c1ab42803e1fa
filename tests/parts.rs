use mongo_tui::action::{fetch_answer, Action, FindOptions, Key};
use mongo_tui::config::{get_config_dir, get_data_dir, join_path, local_config_file, os_config_file};
use mongo_tui::context::MongoContext;
use mongo_tui::model::{
    contains_text, insert_sorted, join_texts, remove_text, toggle_text, CollectionInfo,
    DatabaseInfo, DocField, Document,
};
use mongo_tui::pane_id::PaneId;
use mongo_tui::panes::{ConnectionsPane, DatabasesPane, DocumentsPane, QueryPane, TreeItem, ViewMode};
use mongo_tui::query::{
    compose_find_options, document_text_valid, next_page_exists, page_size, validate_inputs,
    QueryField,
};
use mongo_tui::registry::{Pane, PaneRegistry, PaneSlot};
use mongo_tui::text::{is_blank, parse_integer, string_from_chars, text_less};

fn chars(s: &str) -> Vec<char> {
    s.chars().collect()
}

fn strings(v: &[&str]) -> Vec<String> {
    v.iter().map(|s| s.to_string()).collect()
}

fn doc_with(keys: &[&str]) -> Document {
    Document {
        fields: keys
            .iter()
            .map(|k| DocField { name: k.to_string(), value: format!("v-{}", k) })
            .collect(),
        json: String::new(),
    }
}

#[test]
fn integers_parse_like_i64() {
    assert_eq!(parse_integer(&chars("5")), Some(5));
    assert_eq!(parse_integer(&chars("+12")), Some(12));
    assert_eq!(parse_integer(&chars("007")), Some(7));
    assert_eq!(parse_integer(&chars("0")), Some(0));
    assert_eq!(parse_integer(&chars("-0")), Some(0));
    assert_eq!(parse_integer(&chars("-3")), Some(-3));
    assert_eq!(parse_integer(&chars("9223372036854775807")), Some(i64::MAX));
    assert_eq!(parse_integer(&chars("-9223372036854775808")), Some(i64::MIN));
    assert_eq!(parse_integer(&chars("9223372036854775808")), None);
    assert_eq!(parse_integer(&chars("-9223372036854775809")), None);
    assert_eq!(parse_integer(&chars("99999999999999999999999")), None);
    assert_eq!(parse_integer(&chars("+")), None);
    assert_eq!(parse_integer(&chars("-")), None);
    assert_eq!(parse_integer(&chars("")), None);
    assert_eq!(parse_integer(&chars(" 5")), None);
    assert_eq!(parse_integer(&chars("5x")), None);
    assert_eq!(parse_integer(&chars("--5")), None);
}

#[test]
fn blank_text_is_white_space_only() {
    assert!(is_blank(&chars("")));
    assert!(is_blank(&chars(" \t\n\u{3000}")));
    assert!(!is_blank(&chars(" a ")));
}

#[test]
fn document_inputs_must_be_json_objects() {
    assert!(document_text_valid(&chars("{\"age\": {\"$gt\": 3}}")));
    assert!(document_text_valid(&chars("  ")));
    assert!(document_text_valid(&chars(" {} ")));
    assert!(!document_text_valid(&chars("{bad")));
    assert!(!document_text_valid(&chars("[1, 2]")));
    assert!(!document_text_valid(&chars("42")));
    assert!(!document_text_valid(&chars("{} x")));
    assert!(!document_text_valid(&chars("\"text\"")));
}

#[test]
fn validation_marks_each_bad_input() {
    let e = validate_inputs(&chars("{"), &chars("[]"), &chars("{}"), &chars("ten"));
    assert_eq!(e.filter, Some("Invalid JSON".to_string()));
    assert_eq!(e.sort, Some("Invalid JSON".to_string()));
    assert_eq!(e.projection, None);
    assert_eq!(e.limit, Some("Must be a number".to_string()));
    let ok = validate_inputs(&chars(""), &chars(""), &chars("{\"a\":1}"), &chars(""));
    assert!(ok.filter.is_none() && ok.sort.is_none() && ok.projection.is_none() && ok.limit.is_none());
    assert!(ok.contains(QueryField::Limit) == false);
}

#[test]
fn page_size_defaults_to_ten() {
    assert_eq!(page_size(&chars("")), Some(10));
    assert_eq!(page_size(&chars("25")), Some(25));
    assert_eq!(page_size(&chars("x")), None);
    assert_eq!(page_size(&chars("0")), Some(10));
    assert_eq!(page_size(&chars("-4")), Some(10));
    let e = validate_inputs(&chars(""), &chars(""), &chars(""), &chars("-4"));
    assert!(e.limit.is_none());
}

#[test]
fn composed_options_carry_inputs_and_offset() {
    let o = compose_find_options(&chars("{\"a\": 1}"), &chars(" "), &chars("{\"b\":0}"), &chars("4"), 3)
        .expect("acceptable inputs");
    assert_eq!(
        o,
        FindOptions {
            filter: Some("{\"a\": 1}".to_string()),
            projection: Some("{\"b\":0}".to_string()),
            sort: None,
            limit: Some(4),
            skip: Some(12),
        }
    );
    assert_eq!(compose_find_options(&chars("nope"), &chars(""), &chars(""), &chars(""), 0), None);
    let big = compose_find_options(&chars(""), &chars(""), &chars(""), &chars("9223372036854775807"), 3);
    assert_eq!(big, None);
}

#[test]
fn next_page_exists_only_before_the_end() {
    assert!(next_page_exists(0, 5, 10));
    assert!(!next_page_exists(1, 5, 10));
    assert!(next_page_exists(1, 5, 11));
    assert!(!next_page_exists(0, 5, 0));
}

#[test]
fn text_order_is_by_character() {
    let a = "apple".to_string();
    let b = "apples".to_string();
    let c = "b".to_string();
    assert!(text_less(&a, &b));
    assert!(!text_less(&b, &a));
    assert!(text_less(&b, &c));
    assert!(!text_less(&a, &a));
    assert!(text_less(&"Z".to_string(), &"a".to_string()));
}

#[test]
fn string_lists_keep_order_and_sort() {
    let v = strings(&["_id", "b", "a", "b"]);
    assert!(contains_text(&v, &"a".to_string()));
    assert!(!contains_text(&v, &"c".to_string()));
    assert_eq!(remove_text(&v, &"b".to_string()), strings(&["_id", "a"]));
    assert_eq!(toggle_text(&v, &"c".to_string()), strings(&["_id", "b", "a", "b", "c"]));
    let mut s = strings(&["a", "c"]);
    insert_sorted(&mut s, "b".to_string());
    insert_sorted(&mut s, "_x".to_string());
    insert_sorted(&mut s, "d".to_string());
    assert_eq!(s, strings(&["_x", "a", "b", "c", "d"]));
    assert_eq!(join_texts(&strings(&["x", "y", "z"]), " / "), "x / y / z");
    assert_eq!(join_texts(&Vec::new(), " / "), "");
    assert_eq!(string_from_chars(&chars("héllo")), "héllo");
}

#[test]
fn documents_pane_reads_sorted_fields_from_first_twenty() {
    let mut p = DocumentsPane::new(PaneId::from_raw(9));
    assert_eq!(p.visible_fields, strings(&["_id"]));
    let mut docs = vec![doc_with(&["_id", "zeta", "alpha"]), doc_with(&["beta", "_id", "alpha"])];
    for _ in 0..18 {
        docs.push(doc_with(&["_id"]));
    }
    docs.push(doc_with(&["late"]));
    p.reload_fields(&docs);
    assert_eq!(p.all_fields, strings(&["_id", "alpha", "beta", "zeta"]));
    assert_eq!(p.visible_fields, strings(&["_id", "alpha", "beta", "zeta"]));
    assert_eq!(p.selected, Some(0));
    let wide = vec![doc_with(&["f", "e", "d", "c", "b", "a"])];
    p.reload_fields(&wide);
    assert_eq!(p.all_fields, strings(&["a", "b", "c", "d", "e", "f"]));
    assert_eq!(p.visible_fields, strings(&["_id", "a", "b", "c", "d"]));
    p.reload_fields(&Vec::new());
    assert!(p.all_fields.is_empty());
    assert_eq!(p.selected, None);
}

#[test]
fn documents_pane_moves_and_copies() {
    let mut ctx = MongoContext::new();
    ctx.documents = vec![doc_with(&["_id", "name"]), doc_with(&["name"])];
    let mut p = DocumentsPane::new(PaneId::from_raw(3));
    p.visible_fields = strings(&["_id", "name"]);
    assert_eq!(p.handle_key_event(Key::Char('j'), &mut ctx), Some(Action::Render));
    assert_eq!(p.selected, Some(0));
    p.handle_key_event(Key::Down, &mut ctx);
    p.handle_key_event(Key::Down, &mut ctx);
    assert_eq!(p.selected, Some(1));
    assert_eq!(
        p.handle_key_event(Key::Char('y'), &mut ctx),
        Some(Action::CopyToClipboard(String::new()))
    );
    p.handle_key_event(Key::Char('l'), &mut ctx);
    assert_eq!(p.selected_column_index, 1);
    p.handle_key_event(Key::Char('l'), &mut ctx);
    assert_eq!(p.selected_column_index, 1);
    assert_eq!(
        p.handle_key_event(Key::Char('p'), &mut ctx),
        Some(Action::CopyToClipboard("v-name".to_string()))
    );
    assert_eq!(
        p.handle_key_event(Key::Char('P'), &mut ctx),
        Some(Action::CopyToClipboard("name".to_string()))
    );
    p.handle_key_event(Key::Char('v'), &mut ctx);
    assert_eq!(p.view_mode, ViewMode::Json);
    assert_eq!(p.handle_key_event(Key::Char('h'), &mut ctx), None);
    assert_eq!(p.selected_column_index, 1);
    assert_eq!(p.handle_key_event(Key::Char('k'), &mut ctx), Some(Action::Render));
    assert_eq!(p.selected, Some(0));
}

#[test]
fn databases_tree_expands_and_collapses() {
    let mut ctx = MongoContext::new();
    ctx.databases = vec![
        DatabaseInfo {
            name: "a".to_string(),
            collections: vec![
                CollectionInfo { name: "x".to_string() },
                CollectionInfo { name: "y".to_string() },
            ],
        },
        DatabaseInfo { name: "b".to_string(), collections: vec![] },
    ];
    let mut p = DatabasesPane::new(PaneId::from_raw(1));
    assert_eq!(p.update(&Action::DatabasesLoaded(Vec::new()), &ctx), None);
    assert_eq!(p.tree_items, vec![TreeItem::Database(0), TreeItem::Database(1)]);
    assert_eq!(p.selected_tree_index, Some(0));
    assert_eq!(p.handle_key_event(Key::Char(' '), &mut ctx), Some(Action::Render));
    assert_eq!(
        p.tree_items,
        vec![
            TreeItem::Database(0),
            TreeItem::Collection(0, 0),
            TreeItem::Collection(0, 1),
            TreeItem::Database(1),
        ]
    );
    p.handle_key_event(Key::Down, &mut ctx);
    p.handle_key_event(Key::Down, &mut ctx);
    ctx.pagination.current_page = 4;
    assert_eq!(p.handle_key_event(Key::Enter, &mut ctx), Some(Action::RefreshDocuments));
    assert_eq!((ctx.selected_db_index, ctx.selected_coll_index), (Some(0), Some(1)));
    assert_eq!(ctx.pagination.current_page, 0);
    p.handle_key_event(Key::Up, &mut ctx);
    p.handle_key_event(Key::Up, &mut ctx);
    assert_eq!(p.handle_key_event(Key::Up, &mut ctx), None);
    p.handle_key_event(Key::Enter, &mut ctx);
    assert_eq!(p.tree_items, vec![TreeItem::Database(0), TreeItem::Database(1)]);
}

#[test]
fn registry_keeps_handles_unique() {
    let mut r = PaneRegistry::new();
    assert_eq!(r.active_pane_id(), None);
    r.cycle_next();
    assert_eq!(r.active_pane_id(), None);
    r.register(PaneSlot::Query(QueryPane::new(PaneId::from_raw(5))));
    r.register(PaneSlot::Query(QueryPane::new(PaneId::from_raw(6))));
    r.register(PaneSlot::Query(QueryPane::new(PaneId::from_raw(5))));
    assert_eq!(r.panes.len(), 2);
    assert_eq!(r.active_pane_id(), Some(PaneId::from_raw(5)));
    r.set_active(PaneId::from_raw(7));
    assert_eq!(r.active_pane_id(), Some(PaneId::from_raw(5)));
    r.cycle_next();
    r.cycle_next();
    assert_eq!(r.active_pane_id(), Some(PaneId::from_raw(5)));
    assert!(r.get_pane(PaneId::from_raw(6)).is_some());
    assert!(r.get_pane(PaneId::from_raw(8)).is_none());
    let all = r.get_all_shortcuts();
    assert_eq!(all.len(), 2);
    assert_eq!(all[0].0, "Query");
    assert_eq!(all[0].1, vec![("Enter", "Edit")]);
}

#[test]
fn pane_handles_come_from_a_counter() {
    let mut n: usize = 4;
    let a: PaneId = PaneId::new(&mut n);
    let b: PaneId = PaneId::new(&mut n);
    assert_eq!((a.id(), b.id(), n), (4, 5, 6));
    let c: PaneId<u8> = a.cast();
    assert_eq!(c.id(), 4);
    assert_ne!(a, b);
}

#[test]
fn context_edits_one_input() {
    let mut ctx = MongoContext::new();
    ctx.edit_input(QueryField::Sort, Key::Char('{'));
    ctx.edit_input(QueryField::Sort, Key::Char('}'));
    ctx.edit_input(QueryField::Sort, Key::Backspace);
    ctx.edit_input(QueryField::Limit, Key::Backspace);
    assert_eq!(ctx.sort_input, vec!['{']);
    assert!(ctx.limit_input.is_empty() && ctx.query_input.is_empty());
    assert_eq!(ctx.target_names(), None);
}

#[test]
fn directories_follow_override_then_platform() {
    assert_eq!(get_data_dir(Some("/d".to_string()), Some("/p".to_string())), "/d");
    assert_eq!(get_data_dir(None, Some("/p".to_string())), "/p");
    assert_eq!(get_data_dir(None, None), "./.data");
    assert_eq!(get_config_dir(None, None), "./.config");
    assert_eq!(local_config_file(), ".mongo-tui.config.json");
    assert_eq!(os_config_file(&"/etc/app".to_string()), "/etc/app/config.json");
    assert_eq!(os_config_file(&"/etc/app/".to_string()), "/etc/app/config.json");
    assert_eq!(join_path(&String::new(), "x"), "x");
}

#[test]
fn documents_title_shows_what_is_selected() {
    let mut ctx = MongoContext::new();
    assert_eq!(DocumentsPane::breadcrumb(&ctx), "[4] Documents");
    ctx.connections = vec![mongo_tui::model::Connection { name: "prod".to_string(), uri: "u".to_string() }];
    ctx.selected_connection = Some(0);
    assert_eq!(DocumentsPane::breadcrumb(&ctx), "[4] prod");
    ctx.databases = vec![DatabaseInfo {
        name: "shop".to_string(),
        collections: vec![CollectionInfo { name: "orders".to_string() }],
    }];
    ctx.selected_db_index = Some(0);
    assert_eq!(DocumentsPane::breadcrumb(&ctx), "[4] prod");
    ctx.selected_coll_index = Some(0);
    assert_eq!(DocumentsPane::breadcrumb(&ctx), "[4] prod / shop / orders");
}

#[test]
fn global_shortcuts_are_listed() {
    let v = mongo_tui::viewer::MongoViewer::new();
    assert_eq!(v.get_global_shortcuts(), vec![("q", "Quit"), ("?", "Help"), ("Tab", "Cycle")]);
}

#[test]
fn panes_share_one_capability_set() {
    let mut ctx = MongoContext::new();
    let mut q = QueryPane::new(PaneId::from_raw(2));
    assert_eq!(Pane::name(&q), "Query");
    assert_eq!(Pane::id(&q), PaneId::from_raw(2));
    assert_eq!(Pane::handle_key_event(&mut q, Key::Enter, &mut ctx), Some(Action::OpenQueryBuilder));
    assert_eq!(Pane::handle_key_event(&mut q, Key::Char('x'), &mut ctx), None);
    let c = ConnectionsPane::new(PaneId::from_raw(0));
    assert_eq!(Pane::get_shortcuts(&c).len(), 4);
    let mut d = DocumentsPane::new(PaneId::from_raw(3));
    assert_eq!(Pane::update(&mut d, &Action::ToggleViewMode, &ctx), Some(Action::Render));
    assert_eq!(Pane::get_shortcuts(&d).len(), 4);
}

#[test]
fn fetch_answer_needs_both_results() {
    let page = vec![doc_with(&["_id"])];
    assert_eq!(
        fetch_answer(4, Ok(page.clone()), Ok(9)),
        Action::DocumentsLoaded(4, page.clone(), 9)
    );
    assert_eq!(
        fetch_answer(4, Ok(page), Err("count failed".to_string())),
        Action::FetchFailed(4, "count failed".to_string())
    );
    assert_eq!(
        fetch_answer(5, Err("find failed".to_string()), Err("count failed".to_string())),
        Action::FetchFailed(5, "find failed".to_string())
    );
}
