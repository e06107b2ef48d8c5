use kontrollers::account::Account;
use kontrollers::date::Date;
use kontrollers::error::KontrollerError;
use kontrollers::store::{
    decode_account, decode_public, insert_statement, insert_values, statements, Backend, PG_CREATE_ACCOUNT,
    PG_GET_ACCOUNT_BY_EMAIL, lookup_account, lookup_public, Cell, CREATE_ACCOUNT,
    CREATE_ACCOUNTS_TABLE, CREATE_ADMIN_ACCOUNT, GET_ACCOUNT_BY_EMAIL, GET_ACCOUNT_BY_USERNAME,
};
use rusqlite::types::{Value, ValueRef};
use rusqlite::Connection;

fn text(s: &str) -> Cell {
    Cell::Text(s.to_string())
}

fn full_row() -> Vec<Cell> {
    vec![
        Cell::Integer(1),
        text("frank"),
        text("hash"),
        text("2023-11-05"),
        text("Frank Doe"),
        text("1990-02-28"),
        Cell::Null,
        text("Male"),
        Cell::Null,
        text("frank@example.com"),
        Cell::Null,
        text("https://example.com"),
        Cell::Null,
        text("admin"),
    ]
}

fn account(username: &str, email: Option<&str>, account_type: Option<&str>) -> Account {
    Account {
        username: username.to_string(),
        password: "hashed".to_string(),
        created: Date { year: 2024, month: 1, day: 9 },
        fullname: None,
        date_of_birth: None,
        id_number: None,
        gender: None,
        description: None,
        email: email.map(|e| e.to_string()),
        mobile_number: None,
        website: None,
        last_login: None,
        account_type: account_type.map(|t| t.to_string()),
    }
}

#[test]
fn decode_full_row() {
    let a = decode_account(&full_row()).unwrap();
    assert_eq!(a.username, "frank");
    assert_eq!(a.password, "hash");
    assert_eq!(a.created, Date { year: 2023, month: 11, day: 5 });
    assert_eq!(a.fullname, Some("Frank Doe".to_string()));
    assert_eq!(a.date_of_birth, Some(Date { year: 1990, month: 2, day: 28 }));
    assert_eq!(a.id_number, None);
    assert_eq!(a.gender, Some("Male".to_string()));
    assert_eq!(a.email, Some("frank@example.com".to_string()));
    assert_eq!(a.website, Some("https://example.com".to_string()));
    assert_eq!(a.last_login, None);
    assert_eq!(a.account_type, Some("admin".to_string()));
}

#[test]
fn decode_rejects_bad_columns() {
    let mut short = full_row();
    short.pop();
    assert_eq!(decode_account(&short).unwrap_err(), KontrollerError::DbField);

    let mut null_username = full_row();
    null_username[1] = Cell::Null;
    assert_eq!(decode_account(&null_username).unwrap_err(), KontrollerError::DbField);

    let mut bad_date = full_row();
    bad_date[3] = text("2023-02-30");
    assert_eq!(decode_account(&bad_date).unwrap_err(), KontrollerError::DbField);

    let mut number_email = full_row();
    number_email[9] = Cell::Integer(5);
    assert_eq!(decode_account(&number_email).unwrap_err(), KontrollerError::DbField);
}

#[test]
fn decode_public_reads_username_column() {
    assert_eq!(decode_public(&full_row()).unwrap().username, "frank");
    assert_eq!(decode_public(&vec![Cell::Null]).unwrap_err(), KontrollerError::DbField);
}

#[test]
fn lookup_without_row_is_none() {
    assert!(lookup_account(None).unwrap().is_none());
    assert!(lookup_public(None).unwrap().is_none());
    assert_eq!(lookup_public(Some(full_row())).unwrap().unwrap().username, "frank");
}

#[test]
fn insert_values_layout() {
    let a = account("gina", Some("g@example.com"), Some("admin"));
    let std = insert_values(&a, false).unwrap();
    assert_eq!(std.len(), 4);
    assert!(matches!(&std[0], Cell::Text(s) if s == "gina"));
    assert!(matches!(&std[1], Cell::Text(s) if s == "g@example.com"));
    assert!(matches!(&std[2], Cell::Text(s) if s == "hashed"));
    assert!(matches!(&std[3], Cell::Text(s) if s == "2024-01-09"));
    let adm = insert_values(&a, true).unwrap();
    assert_eq!(adm.len(), 5);
    assert!(matches!(&adm[4], Cell::Text(s) if s == "admin"));
    let untagged = insert_values(&account("gus", None, None), true).unwrap();
    assert!(matches!(&untagged[4], Cell::Text(s) if s == "admin"));
    let no_email = insert_values(&account("hal", None, None), false).unwrap();
    assert!(matches!(no_email[1], Cell::Null));
    let mut bad = account("ida", None, None);
    bad.created = Date { year: 2023, month: 2, day: 29 };
    assert_eq!(insert_values(&bad, false).unwrap_err(), KontrollerError::DbField);
    assert!(!bad.created.is_valid());
    assert!(a.created.is_valid());
}

#[test]
fn dates_through_chrono() {
    assert_eq!(Date::from_ymd(2024, 2, 29), Some(Date { year: 2024, month: 2, day: 29 }));
    assert_eq!(Date::from_ymd(2023, 2, 29), None);
    assert_eq!(Date::from_ymd(2023, 13, 1), None);
    assert_eq!(Date::from_ymd(400000, 1, 1), None);
    assert_eq!(Date::parse_iso("2015-03-14"), Some(Date { year: 2015, month: 3, day: 14 }));
    assert_eq!(Date::parse_iso("2015-04-31"), None);
    assert_eq!(Date::parse_iso("yesterday"), None);
    assert_eq!(Date { year: 7, month: 3, day: 4 }.to_iso(), "0007-03-04");
    let today = Date::today();
    assert!(Date::from_ymd(today.year, today.month, today.day).is_some());
}

fn to_value(c: &Cell) -> Value {
    match c {
        Cell::Null => Value::Null,
        Cell::Integer(i) => Value::Integer(*i),
        Cell::Text(s) => Value::Text(s.clone()),
        Cell::Other => Value::Null,
    }
}

fn to_cell(v: ValueRef<'_>) -> Cell {
    match v {
        ValueRef::Null => Cell::Null,
        ValueRef::Integer(i) => Cell::Integer(i),
        ValueRef::Text(t) => Cell::Text(String::from_utf8_lossy(t).into_owned()),
        _ => Cell::Other,
    }
}

fn open() -> Connection {
    let conn = Connection::open_in_memory().unwrap();
    conn.execute(CREATE_ACCOUNTS_TABLE, ()).unwrap();
    conn
}

fn insert(conn: &Connection, a: &Account, admin: bool) -> rusqlite::Result<usize> {
    let values: Vec<Value> = insert_values(a, admin).unwrap().iter().map(to_value).collect();
    let sql = if admin { CREATE_ADMIN_ACCOUNT } else { CREATE_ACCOUNT };
    conn.execute(sql, rusqlite::params_from_iter(values))
}

fn fetch(conn: &Connection, sql: &str, name: &str, key: &str) -> Option<Vec<Cell>> {
    let mut stmt = conn.prepare(sql).unwrap();
    let mut rows = stmt.query(&[(name, key)]).unwrap();
    rows.next().unwrap().map(|row| (0..14).map(|i| to_cell(row.get_ref(i).unwrap())).collect())
}

#[test]
fn sqlite_create_then_fetch_public_by_either_key() {
    let conn = open();
    insert(&conn, &account("ivy", Some("ivy@example.com"), None), false).unwrap();
    let by_name = lookup_public(fetch(&conn, GET_ACCOUNT_BY_USERNAME, ":username", "ivy")).unwrap();
    assert_eq!(by_name.unwrap().username, "ivy");
    let by_email = lookup_public(fetch(&conn, GET_ACCOUNT_BY_EMAIL, ":email", "ivy@example.com")).unwrap();
    assert_eq!(by_email.unwrap().username, "ivy");
    let missing = lookup_public(fetch(&conn, GET_ACCOUNT_BY_USERNAME, ":username", "nobody")).unwrap();
    assert!(missing.is_none());
}

#[test]
fn sqlite_private_fetch_round_trips_admin_record() {
    let conn = open();
    insert(&conn, &account("jo", Some("admin@example.com"), Some("admin")), true).unwrap();
    let a = lookup_account(fetch(&conn, GET_ACCOUNT_BY_USERNAME, ":username", "jo")).unwrap().unwrap();
    assert_eq!(a.username, "jo");
    assert_eq!(a.password, "hashed");
    assert_eq!(a.created, Date { year: 2024, month: 1, day: 9 });
    assert_eq!(a.email, Some("admin@example.com".to_string()));
    assert!(a.is_admin());
    let s = lookup_account(fetch(&conn, GET_ACCOUNT_BY_EMAIL, ":email", "admin@example.com")).unwrap().unwrap();
    assert_eq!(s.username, "jo");
}

#[test]
fn sqlite_duplicate_username_is_refused() {
    let conn = open();
    insert(&conn, &account("kim", None, None), false).unwrap();
    let err = insert(&conn, &account("kim", Some("other@example.com"), None), false).unwrap_err();
    assert_eq!(err.sqlite_error_code(), Some(rusqlite::ErrorCode::ConstraintViolation));
    let count: i64 = conn.query_row("SELECT COUNT(*) FROM accounts", (), |r| r.get(0)).unwrap();
    assert_eq!(count, 1);
    let second = lookup_public(fetch(&conn, GET_ACCOUNT_BY_EMAIL, ":email", "other@example.com")).unwrap();
    assert!(second.is_none());
}

#[test]
fn sqlite_duplicate_email_is_refused() {
    let conn = open();
    insert(&conn, &account("lee", Some("same@example.com"), None), false).unwrap();
    assert!(insert(&conn, &account("max", Some("same@example.com"), None), false).is_err());
}

#[test]
fn backend_statements() {
    let lite = statements(Backend::Sqlite);
    assert_eq!(lite.create_table, CREATE_ACCOUNTS_TABLE);
    assert_eq!(lite.get_by_username, GET_ACCOUNT_BY_USERNAME);
    let pg = statements(Backend::Postgres);
    assert_eq!(pg.get_by_email, PG_GET_ACCOUNT_BY_EMAIL);
    assert_eq!(insert_statement(Backend::Sqlite, true), CREATE_ADMIN_ACCOUNT);
    assert_eq!(insert_statement(Backend::Sqlite, false), CREATE_ACCOUNT);
    assert_eq!(insert_statement(Backend::Postgres, false), PG_CREATE_ACCOUNT);
}

#[test]
fn sqlite_admin_insert_stores_admin_tag() {
    let conn = open();
    insert(&conn, &account("nia", None, None), true).unwrap();
    let a = lookup_account(fetch(&conn, GET_ACCOUNT_BY_USERNAME, ":username", "nia")).unwrap().unwrap();
    assert_eq!(a.account_type, Some("admin".to_string()));
    assert!(a.is_admin());
}
