use wikijs::cli::{
    all_present, bool_text, credentials_from_args, edit_file_suffix, int_or_zero,
    optional_bool_text, page_title, present_tags, system_flag_list_table, text_or_empty,
    theme_list_table, updated_groups, updated_tags,
};
use wikijs::system::SystemFlag;
use wikijs::theming::Theme;
use wikijs::Credentials;

fn strings(cells: &[&str]) -> Vec<String> {
    cells.iter().map(|cell| cell.to_string()).collect()
}

#[test]
fn list_tables_have_a_header_and_a_row_per_item() {
    let flags = vec![
        SystemFlag { key: "ldapdebug".to_string(), value: false },
        SystemFlag { key: "sqllog".to_string(), value: true },
    ];
    assert_eq!(
        system_flag_list_table(&flags),
        vec![strings(&["key", "value"]), strings(&["ldapdebug", "false"]), strings(&["sqllog", "true"])]
    );
    let themes = vec![Theme { key: Some("default".to_string()), title: None, author: None }];
    assert_eq!(
        theme_list_table(&themes),
        vec![strings(&["key", "title", "author"]), strings(&["default", "", ""])]
    );
    assert_eq!(system_flag_list_table(&Vec::new()), vec![strings(&["key", "value"])]);
}

#[test]
fn cell_texts() {
    assert_eq!(bool_text(true), "true");
    assert_eq!(bool_text(false), "false");
    assert_eq!(text_or_empty(&None), "");
    assert_eq!(text_or_empty(&Some("x".to_string())), "x");
    assert_eq!(int_or_zero(None), 0);
    assert_eq!(int_or_zero(Some(7)), 7);
    assert_eq!(optional_bool_text(None), "");
    assert_eq!(optional_bool_text(Some(true)), "true");
}

#[test]
fn page_titles_default_to_the_last_path_segment() {
    assert_eq!(page_title(None, "docs/guide/intro"), "intro");
    assert_eq!(page_title(Some("Welcome".to_string()), "docs/guide/intro"), "Welcome");
    assert_eq!(page_title(None, "home"), "home");
}

#[test]
fn tag_and_group_updates() {
    assert_eq!(present_tags(&strings(&["a", "b"])), vec![Some("a".to_string()), Some("b".to_string())]);
    assert_eq!(updated_tags(Some(strings(&["a"])), false), Some(vec![Some("a".to_string())]));
    assert_eq!(updated_tags(Some(strings(&["a"])), true), Some(Vec::new()));
    assert_eq!(updated_tags(None, false), None);
    assert_eq!(all_present(&vec![1i64, 2]), vec![Some(1), Some(2)]);
    assert_eq!(updated_groups(Some(vec![3]), false), Some(vec![Some(3)]));
    assert_eq!(updated_groups(None, true), Some(Vec::new()));
    assert_eq!(updated_groups(None, false), None);
}

#[test]
fn credentials_prefer_the_key() {
    let key = credentials_from_args(Some("k".to_string()), Some("u".to_string()), None, None);
    assert!(matches!(key, Credentials::Key(ref k) if k == "k"));
    let login = credentials_from_args(
        None,
        Some("u".to_string()),
        Some("p".to_string()),
        Some("local".to_string()),
    );
    assert!(matches!(login, Credentials::UsernamePassword(ref u, ref p, ref s) if u == "u" && p == "p" && s == "local"));
}

#[test]
fn markdown_pages_are_edited_as_md_files() {
    assert_eq!(edit_file_suffix(&"markdown".to_string()), Some(".md".to_string()));
    assert_eq!(edit_file_suffix(&"code".to_string()), None);
}
