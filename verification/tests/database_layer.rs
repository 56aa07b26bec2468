//! The database contract surface: paging statements, cell marshaling, row
//! metadata, pagination, and query results.

use dbtui::components::record_table::RecordTableComponent;
use dbtui::components::sql_editor::{QueryResult, SqlEditorComponent};
use dbtui::components::table_status::TableStatusComponent;
use dbtui::config::KeyConfig;
use dbtui::database::{
    bytes_to_hex, get_or_null, join_comma, mysql_records_query, postgres_records_query,
    sqlite_records_query, Column, ExecuteResult, TableRow,
};
use dbtui::dbtree::{Database, Table};

#[test]
fn records_queries_carry_the_filter_verbatim() {
    let db = Database::new(String::from("shop"), Vec::new());
    let table = Table::named(String::from("orders"));
    let filter = Some(String::from("id = 1"));

    let q = mysql_records_query(&db, &table, 0, &filter);
    assert_eq!(q, "SELECT * FROM `shop`.`orders` WHERE id = 1 LIMIT 0, 200");
    assert!(q.contains("id = 1"));

    let q = mysql_records_query(&db, &table, 200, &None);
    assert_eq!(q, "SELECT * FROM `shop`.`orders` LIMIT 200, 200");

    let q = sqlite_records_query(&table, 400, &filter);
    assert_eq!(q, "SELECT * FROM `orders` WHERE id = 1 LIMIT 400, 200");

    let q = postgres_records_query(&db, &table, 0, &None);
    assert_eq!(q, "SELECT * FROM \"shop\".\"public\".\"orders\" LIMIT 200 OFFSET 0");
}

#[test]
fn cell_marshaling_helpers() {
    assert_eq!(get_or_null(None), "NULL");
    assert_eq!(get_or_null(Some(String::from("7"))), "7");
    assert_eq!(bytes_to_hex(&vec![0x00u8, 0xab, 0xff]), "\\x00abff");
    assert_eq!(bytes_to_hex(&Vec::new()), "\\x");
    assert_eq!(
        join_comma(&vec![String::from("a"), String::from("b"), String::from("c")]),
        "a,b,c"
    );
    assert_eq!(join_comma(&Vec::new()), "");
}

#[test]
fn column_rows_line_up_with_fields() {
    let col = Column {
        name: Some(String::from("id")),
        col_type: Some(String::from("int")),
        null: Some(String::from("NO")),
        default: None,
        comment: None,
    };
    let fields = col.fields();
    let cells = col.columns();
    assert_eq!(fields.len(), cells.len());
    assert_eq!(fields[0], "name");
    assert_eq!(cells[0], "id");
    assert_eq!(cells[3], "");
}

#[test]
fn pagination_reaches_end_of_data_after_exact_pages() {
    // Two full pages and then an empty fetch: end-of-data only at the end.
    let mut records = RecordTableComponent::new(KeyConfig::default());
    let headers = vec![String::from("id")];
    let page: Vec<Vec<String>> = (0..200).map(|i: usize| vec![i.to_string()]).collect();
    records.apply_records(
        headers.clone(),
        page.clone(),
        Database::new(String::from("shop"), Vec::new()),
        Table::named(String::from("orders")),
    );
    assert_eq!(records.table.rows.len(), 200);
    assert!(!records.table.eod);
    records.apply_next_page(page.clone());
    assert_eq!(records.table.rows.len(), 400);
    assert!(!records.table.eod);
    records.apply_next_page(Vec::new());
    assert!(records.table.eod);
    assert_eq!(records.table.rows.len(), 400);
}

#[test]
fn execute_result_routes_to_grid_or_message() {
    let mut editor = SqlEditorComponent::new(KeyConfig::default(), None);
    editor
        .apply_execute_result(ExecuteResult::Read {
            headers: vec![String::from("1")],
            rows: vec![vec![String::from("1")]],
            database: Database::new(String::from("-"), Vec::new()),
            table: Table::named(String::from("-")),
        })
        .unwrap();
    assert_eq!(editor.table.rows, vec![vec![String::from("1")]]);
    assert!(editor.query_result.is_none());

    editor
        .apply_execute_result(ExecuteResult::Write { updated_rows: 1 })
        .unwrap();
    assert_eq!(
        editor.query_result.as_ref().map(|q| q.result_str()),
        Some(String::from("Query OK, 1 row affected"))
    );
}

#[test]
fn query_result_message_counts_rows() {
    assert_eq!(
        QueryResult { updated_rows: 0 }.result_str(),
        "Query OK, 0 row affected"
    );
    assert_eq!(
        QueryResult { updated_rows: 1234 }.result_str(),
        "Query OK, 1234 row affected"
    );
}

#[test]
fn status_line_renders_counts_and_engine() {
    let mut table = Table::named(String::from("orders"));
    table.engine = Some(String::from("InnoDB"));
    let status = TableStatusComponent::new(Some(42), Some(5), Some(table));
    let texts = status.status_texts();
    assert_eq!(texts[0], "rows: 42, ");
    assert_eq!(texts[1], "columns: 5, ");
    assert_eq!(texts[2], "engine: InnoDB");

    let empty = TableStatusComponent::default();
    assert_eq!(empty.status_texts()[0], "rows: -, ");
}

#[test]
fn character_width_uses_display_columns() {
    assert_eq!(dbtui::components::compute_character_width(&'a'), 1);
    assert_eq!(dbtui::components::compute_character_width(&'\u{4e2d}'), 2);
    assert_eq!(dbtui::components::compute_character_width(&'\u{0007}'), 0);
}
