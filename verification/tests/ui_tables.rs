use secpar::ui::{
    aborted_text, build_parameters_table, build_secrets_table, confirm_delete, delete_prompt,
    info_text, select_from_list, success_text, value_text,
};
use secpar::errors::SecParError;

#[test]
fn select_from_list_errors_on_empty_input() {
    let result = select_from_list("Pick one", vec![]);
    assert!(result.is_err());
    let err = result.unwrap_err().message();
    assert!(err.contains("No items available"));
}

#[test]
fn build_secrets_table_contains_header_and_row() {
    let rows = vec![(
        "my-secret",
        "arn:aws:secretsmanager:us-east-1:123:secret:my-secret",
        "2024-06-01",
    )];
    let table = build_secrets_table(&rows);
    let rendered = table.to_string();
    assert!(rendered.contains("NAME"));
    assert!(rendered.contains("ARN"));
    assert!(rendered.contains("LAST CHANGED"));
    assert!(rendered.contains("my-secret"));
    assert!(rendered.contains("2024-06-01"));
}

#[test]
fn build_secrets_table_handles_empty_rows() {
    let table = build_secrets_table(&[]);
    let rendered = table.to_string();
    assert!(rendered.contains("NAME"));
    assert!(rendered.contains("ARN"));
    assert!(rendered.contains("LAST CHANGED"));
}

#[test]
fn build_parameters_table_contains_header_and_row() {
    let rows = vec![("/my/param", "SecureString", "2024-06-01")];
    let table = build_parameters_table(&rows);
    let rendered = table.to_string();
    assert!(rendered.contains("NAME"));
    assert!(rendered.contains("TYPE"));
    assert!(rendered.contains("LAST MODIFIED"));
    assert!(rendered.contains("/my/param"));
    assert!(rendered.contains("SecureString"));
}

#[test]
fn build_parameters_table_handles_empty_rows() {
    let table = build_parameters_table(&[]);
    let rendered = table.to_string();
    assert!(rendered.contains("NAME"));
    assert!(rendered.contains("TYPE"));
    assert!(rendered.contains("LAST MODIFIED"));
}

#[test]
fn tables_hold_header_and_rows_in_order() {
    let rows = vec![("a", "b", "c"), ("d", "e", "f")];
    let mut table = build_secrets_table(&rows);
    let header: Vec<String> = table.header().unwrap().cell_iter().map(|c| c.content()).collect();
    assert_eq!(header, vec!["NAME", "ARN", "LAST CHANGED"]);
    let body: Vec<Vec<String>> = table
        .row_iter()
        .map(|r| r.cell_iter().map(|c| c.content()).collect())
        .collect();
    assert_eq!(body, vec![vec!["a", "b", "c"], vec!["d", "e", "f"]]);
    assert_eq!(table.current_style_as_preset(), comfy_table::presets::UTF8_FULL);
    assert!(table.to_string().contains('┌'));
}

#[test]
fn parameters_table_header_and_style() {
    let mut table = build_parameters_table(&[("x", "String", "")]);
    let header: Vec<String> = table.header().unwrap().cell_iter().map(|c| c.content()).collect();
    assert_eq!(header, vec!["NAME", "TYPE", "LAST MODIFIED"]);
    assert_eq!(table.row_count(), 1);
    assert_eq!(table.current_style_as_preset(), "││──╞═╪╡┆╌┼├┤┬┴┌┐└┘");
}

#[test]
fn select_from_list_keeps_prompt_and_items() {
    let sel = select_from_list("Pick one", vec!["alpha".to_string(), "beta".to_string()]).unwrap();
    assert_eq!(sel.prompt, "Pick one");
    assert_eq!(sel.items, vec!["alpha".to_string(), "beta".to_string()]);
    assert_eq!(sel.chosen(Ok(1)).unwrap(), "beta");
    match sel.chosen(Err("not a terminal".to_string())) {
        Err(SecParError::Interactive(m)) => assert_eq!(m, "not a terminal"),
        other => panic!("unexpected {other:?}"),
    }
}

#[test]
fn empty_selection_error_message() {
    match select_from_list("Pick one", vec![]) {
        Err(e) => assert_eq!(e.message(), "Interactive prompt error: No items available to select from"),
        Ok(_) => panic!("expected an error"),
    }
}

#[test]
fn confirmation_outcomes() {
    assert!(confirm_delete(Ok(true)).unwrap());
    assert!(!confirm_delete(Ok(false)).unwrap());
    match confirm_delete(Err("io".to_string())) {
        Err(SecParError::Interactive(m)) => assert_eq!(m, "io"),
        other => panic!("unexpected {other:?}"),
    }
    assert_eq!(delete_prompt("my-secret"), "Delete 'my-secret'?");
}

#[test]
fn notice_texts() {
    assert_eq!(success_text("done"), "✅ done");
    assert_eq!(info_text("2 secret(s) found."), "ℹ️  2 secret(s) found.");
    assert_eq!(value_text("prod/api/key", "sk-abc123xyz"), "🔑 prod/api/key\nsk-abc123xyz");
    assert_eq!(aborted_text(), "🚫 Aborted.");
}
