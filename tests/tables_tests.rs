use bel7_cli::{
    Padding, StyledTable, TableSetting, TableStyle, build_table_with_columns, display_option,
    display_option_or, parse_columns, select_columns,
};

fn strings(items: &[&str]) -> Vec<String> {
    items.iter().map(|s| s.to_string()).collect()
}

#[test]
fn test_display_option() {
    assert_eq!(display_option(&Some(42)), "42");
    assert_eq!(display_option::<i32>(&None), "");
}

#[test]
fn test_display_option_or() {
    assert_eq!(display_option_or(&Some(42), "N/A"), "42");
    assert_eq!(display_option_or::<i32>(&None, "N/A"), "N/A");
}

#[test]
fn test_table_style_default() {
    assert_eq!(TableStyle::default(), TableStyle::Modern);
}

#[test]
fn parse_columns_trims_lowercases_and_drops_empty_pieces() {
    assert_eq!(
        parse_columns("Name, VALUE ,,status"),
        strings(&["name", "value", "status"])
    );
}

#[test]
fn parse_columns_of_blank_input_is_empty() {
    assert!(parse_columns("").is_empty());
    assert!(parse_columns(" , ,\t,").is_empty());
}

#[test]
fn parse_columns_keeps_order_and_duplicates() {
    assert_eq!(
        parse_columns("b,a,B, a"),
        strings(&["b", "a", "b", "a"])
    );
}

#[test]
fn parse_columns_lowercases_beyond_ascii() {
    assert_eq!(parse_columns("ÄRGER,\u{3000}Größe\u{a0}"), strings(&["ärger", "größe"]));
}

#[test]
fn parse_columns_entries_are_lowercase_and_nonempty() {
    for input in ["A,b,,C", " X , y ", ",,,", "MiXeD,Case"] {
        for entry in parse_columns(input) {
            assert!(!entry.is_empty());
            assert_eq!(entry, entry.to_lowercase());
        }
    }
}

#[test]
fn select_columns_follows_the_requested_order() {
    let headers = strings(&["name", "value"]);
    let records = vec![strings(&["alice", "1"]), strings(&["bob", "2"])];
    let grid = select_columns(&headers, &records, &parse_columns("value,name"));
    assert_eq!(
        grid,
        vec![
            strings(&["value", "name"]),
            strings(&["1", "alice"]),
            strings(&["2", "bob"]),
        ]
    );
}

#[test]
fn select_columns_drops_unknown_names_and_keeps_duplicates() {
    let headers = strings(&["name", "value", "status"]);
    let records = vec![strings(&["a", "1", "ok"])];
    let grid = select_columns(&headers, &records, &strings(&["status", "missing", "name", "status"]));
    assert_eq!(
        grid,
        vec![
            strings(&["status", "name", "status"]),
            strings(&["ok", "a", "ok"]),
        ]
    );
}

#[test]
fn select_columns_uses_the_first_matching_header() {
    let headers = strings(&["id", "id"]);
    let records = vec![strings(&["first", "second"])];
    let grid = select_columns(&headers, &records, &strings(&["id"]));
    assert_eq!(grid, vec![strings(&["id"]), strings(&["first"])]);
}

#[test]
fn select_columns_without_records_is_only_the_header_row() {
    let grid = select_columns(&strings(&["a"]), &vec![], &strings(&["a", "b"]));
    assert_eq!(grid, vec![strings(&["a"])]);
}

#[test]
fn build_table_with_columns_matches_headers_case_insensitively() {
    let headers = strings(&["Name", "Value"]);
    let records = vec![strings(&["alice", "1"]), strings(&["bob", "2"])];
    let table = build_table_with_columns(&headers, &records, &parse_columns("VALUE, name, bogus"));
    let out = table.to_string();
    let value_at = out.find("value").unwrap();
    let name_at = out.find("name").unwrap();
    assert!(value_at < name_at);
    assert!(!out.contains("bogus"));
    assert!(!out.contains("Name"));
    let one_at = out.find('1').unwrap();
    let alice_at = out.find("alice").unwrap();
    assert!(one_at < alice_at);
    assert!(out.contains("bob"));
}

#[test]
fn styled_table_settings_follow_the_fixed_order() {
    let settings = StyledTable::new()
        .max_width(80)
        .wrap_column(1, 20)
        .replace_newlines(",")
        .header("Title")
        .remove_header_row()
        .padding(Padding::new(0, 1, 0, 0))
        .style(TableStyle::Psql)
        .settings();
    assert_eq!(
        settings,
        vec![
            TableSetting::Style(TableStyle::Psql),
            TableSetting::Padding(Padding::new(0, 1, 0, 0)),
            TableSetting::RemoveHeaderRow,
            TableSetting::Panel("Title".to_string()),
            TableSetting::ReplaceNewlines(",".to_string()),
            TableSetting::WrapColumn(1, 20),
            TableSetting::TruncateWidth(80),
        ]
    );
}

#[test]
fn default_styled_table_only_sets_the_style() {
    assert_eq!(
        StyledTable::default().settings(),
        vec![TableSetting::Style(TableStyle::Modern)]
    );
}

#[test]
fn table_style_names() {
    let names: Vec<&str> = TableStyle::all().iter().map(|s| s.name()).collect();
    assert_eq!(
        names,
        vec!["modern", "borderless", "markdown", "sharp", "ascii", "psql", "dots"]
    );
}

#[test]
fn padding_keeps_its_sides() {
    let p = Padding::new(1, 2, 3, 4);
    assert_eq!((p.left, p.right, p.top, p.bottom), (1, 2, 3, 4));
}

#[test]
fn every_style_keeps_the_cells() {
    let headers = strings(&["name", "value"]);
    let records = vec![strings(&["test", "1"])];
    let plain = build_table_with_columns(&headers, &records, &strings(&["name"])).to_string();
    for style in TableStyle::all() {
        let mut table = build_table_with_columns(&headers, &records, &strings(&["name"]));
        style.apply(&mut table);
        let out = table.to_string();
        assert!(out.contains("test"));
        assert!(out.contains("name"));
        assert!(!out.contains("value"));
        if *style != TableStyle::Ascii {
            assert_ne!(out, plain);
        }
    }
}
