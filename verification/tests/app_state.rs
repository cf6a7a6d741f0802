use modal_list::state::{App, Mode};

fn app_with(items: &[&str], selected: Option<usize>) -> App {
    App {
        selected_list_index: selected,
        items: items.iter().map(|s| s.to_string()).collect(),
        input: String::new(),
        mode: Mode::Normal,
    }
}

#[test]
fn default_seeds_three_items() {
    let app = App::default();
    assert_eq!(app.items, vec!["aaa".to_string(), "bbb".to_string(), "ccc".to_string()]);
    assert_eq!(app.selected_list_index, Some(1));
    assert_eq!(app.mode, Mode::Normal);
    assert_eq!(app.input, "");
    assert!(app.is_well_formed());
}

#[test]
fn select_next_full_cycle_returns_cursor() {
    let mut app = app_with(&["aaa", "bbb", "ccc"], Some(1));
    for _ in 0..3 {
        app.select_next();
    }
    assert_eq!(app.selected_list_index, Some(1));
}

#[test]
fn select_previous_inverts_select_next() {
    let mut app = app_with(&["aaa", "bbb", "ccc"], Some(0));
    app.select_next();
    app.select_previous();
    assert_eq!(app.selected_list_index, Some(0));
    app.select_previous();
    app.select_next();
    assert_eq!(app.selected_list_index, Some(0));
}

#[test]
fn select_previous_wraps_to_last() {
    let mut app = app_with(&["aaa", "bbb"], Some(0));
    app.select_previous();
    assert_eq!(app.selected_list_index, Some(1));
}

#[test]
fn select_on_empty_list_is_noop() {
    let mut app = app_with(&[], None);
    app.select_next();
    assert_eq!(app.selected_list_index, None);
    app.select_previous();
    assert_eq!(app.selected_list_index, None);
}

#[test]
fn commit_clears_buffer_and_appends() {
    let mut app = app_with(&["aaa"], Some(0));
    app.mode = Mode::Insert;
    app.input = "abc".to_string();
    app.push_input_to_items();
    assert_eq!(app.input, "");
    assert_eq!(app.mode, Mode::Normal);
    assert_eq!(app.items, vec!["aaa".to_string(), "abc".to_string()]);
    assert_eq!(app.selected_list_index, Some(0));
}

#[test]
fn commit_on_empty_list_seeds_cursor() {
    let mut app = app_with(&[], None);
    app.input = "first".to_string();
    app.push_input_to_items();
    assert_eq!(app.items, vec!["first".to_string()]);
    assert_eq!(app.selected_list_index, Some(0));
}

#[test]
fn commit_of_empty_buffer_appends_empty_item() {
    let mut app = app_with(&[], None);
    app.push_input_to_items();
    assert_eq!(app.items, vec!["".to_string()]);
    assert_eq!(app.selected_list_index, Some(0));
    assert_eq!(app.mode, Mode::Normal);
}

#[test]
fn delete_only_item_empties_list() {
    let mut app = app_with(&["solo"], Some(0));
    app.delete_selected_item();
    assert!(app.items.is_empty());
    assert_eq!(app.selected_list_index, None);
}

#[test]
fn delete_last_index_reclamps_cursor() {
    let mut app = app_with(&["aaa", "bbb", "ccc"], Some(2));
    app.delete_selected_item();
    assert_eq!(app.items, vec!["aaa".to_string(), "bbb".to_string()]);
    assert_eq!(app.selected_list_index, Some(1));
}

#[test]
fn delete_middle_keeps_numeric_index() {
    let mut app = app_with(&["aaa", "bbb", "ccc"], Some(1));
    app.delete_selected_item();
    assert_eq!(app.items, vec!["aaa".to_string(), "ccc".to_string()]);
    assert_eq!(app.selected_list_index, Some(1));
}

#[test]
fn delete_with_absent_cursor_is_noop() {
    let mut app = app_with(&[], None);
    app.delete_selected_item();
    assert!(app.items.is_empty());
    assert_eq!(app.selected_list_index, None);
}

#[test]
fn push_input_char_appends() {
    let mut app = app_with(&[], None);
    app.push_input_char('h');
    app.push_input_char('i');
    assert_eq!(app.input, "hi");
}

#[test]
fn backspace_removes_last_char() {
    let mut app = app_with(&[], None);
    app.input = "hi".to_string();
    app.backspace_input();
    assert_eq!(app.input, "h");
}

#[test]
fn backspace_on_empty_buffer_is_noop() {
    let mut app = app_with(&[], None);
    app.backspace_input();
    assert_eq!(app.input, "");
}

#[test]
fn mode_setters_assign_mode() {
    let mut app = app_with(&[], None);
    app.enter_insert_mode();
    assert_eq!(app.mode, Mode::Insert);
    app.enter_popup_mode();
    assert_eq!(app.mode, Mode::Popup);
    app.enter_normal_mode();
    assert_eq!(app.mode, Mode::Normal);
}

#[test]
fn is_well_formed_rejects_bad_cursor() {
    let out_of_bounds = app_with(&["aaa"], Some(1));
    assert!(!out_of_bounds.is_well_formed());
    let absent_on_non_empty = app_with(&["aaa"], None);
    assert!(!absent_on_non_empty.is_well_formed());
    let present_on_empty = app_with(&[], Some(0));
    assert!(!present_on_empty.is_well_formed());
    assert!(app_with(&["aaa"], Some(0)).is_well_formed());
    assert!(app_with(&[], None).is_well_formed());
}
