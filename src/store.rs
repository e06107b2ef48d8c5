//! The accounts table: its statements, the values bound into an insert,
//! and the decoding of a fetched row into a record or its public
//! projection. Running the statements is the caller's part.

use crate::account::{admin_account_type, admin_tag, Account, PublicAccount};
use crate::date::{iso_date_of, iso_text_of, Date};
use crate::error::KontrollerError;
use vstd::prelude::*;

verus! {

/// Creates the accounts table unless it exists.
pub const CREATE_ACCOUNTS_TABLE: &'static str = "CREATE TABLE IF NOT EXISTS accounts (
    id INTEGER PRIMARY KEY,
    username TEXT UNIQUE NOT NULL,
    password TEXT NOT NULL,
    created TEXT NOT NULL,
    fullname TEXT,
    date_of_birth TEXT,
    id_number TEXT,
    gender TEXT,
    description TEXT,
    email TEXT UNIQUE,
    mobile_number TEXT,
    website TEXT,
    last_login TEXT,
    account_type TEXT)";

/// Fetches the account with a username, bound as `:username`.
pub const GET_ACCOUNT_BY_USERNAME: &'static str = "SELECT id, username, password, created, fullname, date_of_birth, id_number, gender, description, email, mobile_number, website, last_login, account_type FROM accounts WHERE username = :username";

/// Fetches the account with an email, bound as `:email`.
pub const GET_ACCOUNT_BY_EMAIL: &'static str = "SELECT id, username, password, created, fullname, date_of_birth, id_number, gender, description, email, mobile_number, website, last_login, account_type FROM accounts WHERE email = :email";

/// Inserts a standard account from the values of `insert_values`.
pub const CREATE_ACCOUNT: &'static str = "INSERT INTO accounts (username, email, password, created) VALUES (?1, ?2, ?3, ?4)";

/// Inserts an admin account from the values of `insert_values`.
pub const CREATE_ADMIN_ACCOUNT: &'static str = "INSERT INTO accounts (username, email, password, created, account_type) VALUES (?1, ?2, ?3, ?4, ?5)";

/// Creates the accounts table on PostgreSQL unless it exists.
pub const PG_CREATE_ACCOUNTS_TABLE: &'static str = "CREATE TABLE IF NOT EXISTS accounts (
    id bigserial PRIMARY KEY,
    username varchar(15) UNIQUE NOT NULL,
    password text NOT NULL,
    created date NOT NULL,
    fullname varchar(50),
    date_of_birth date,
    id_number varchar(100),
    gender varchar(20),
    description varchar(200),
    email varchar(320) UNIQUE,
    mobile_number varchar(15),
    website varchar(2048),
    last_login date,
    account_type varchar(50))";

/// Fetches the account with a username, bound as `$1`, on PostgreSQL.
pub const PG_GET_ACCOUNT_BY_USERNAME: &'static str = "SELECT id, username, password, created::text, fullname, date_of_birth::text, id_number, gender, description, email, mobile_number, website, last_login::text, account_type FROM accounts WHERE username = $1";

/// Fetches the account with an email, bound as `$1`, on PostgreSQL.
pub const PG_GET_ACCOUNT_BY_EMAIL: &'static str = "SELECT id, username, password, created::text, fullname, date_of_birth::text, id_number, gender, description, email, mobile_number, website, last_login::text, account_type FROM accounts WHERE email = $1";

/// Inserts a standard account from the values of `insert_values`, on
/// PostgreSQL.
pub const PG_CREATE_ACCOUNT: &'static str = "INSERT INTO accounts (username, email, password, created) VALUES ($1, $2, $3, $4::text::date)";

/// Inserts an admin account from the values of `insert_values`, on
/// PostgreSQL.
pub const PG_CREATE_ADMIN_ACCOUNT: &'static str = "INSERT INTO accounts (username, email, password, created, account_type) VALUES ($1, $2, $3, $4::text::date, $5)";

/// The relational backends an account store can run on.
#[derive(Debug, Clone, Copy, PartialEq, Eq, Structural)]
pub enum Backend {
    /// An embedded SQLite file; lookups bind the key by name.
    Sqlite,
    /// A PostgreSQL server; lookups bind the key as `$1`.
    Postgres,
}

/// The statements a backend runs. Every lookup returns the columns in the
/// order `decode_account` reads them, and every insert takes the values of
/// `insert_values`.
#[derive(Debug, Clone, Copy)]
pub struct Statements {
    pub create_table: &'static str,
    pub get_by_username: &'static str,
    pub get_by_email: &'static str,
    pub create_account: &'static str,
    pub create_admin_account: &'static str,
}

pub open spec fn statements_spec(backend: Backend) -> Statements {
    match backend {
        Backend::Sqlite => Statements {
            create_table: CREATE_ACCOUNTS_TABLE,
            get_by_username: GET_ACCOUNT_BY_USERNAME,
            get_by_email: GET_ACCOUNT_BY_EMAIL,
            create_account: CREATE_ACCOUNT,
            create_admin_account: CREATE_ADMIN_ACCOUNT,
        },
        Backend::Postgres => Statements {
            create_table: PG_CREATE_ACCOUNTS_TABLE,
            get_by_username: PG_GET_ACCOUNT_BY_USERNAME,
            get_by_email: PG_GET_ACCOUNT_BY_EMAIL,
            create_account: PG_CREATE_ACCOUNT,
            create_admin_account: PG_CREATE_ADMIN_ACCOUNT,
        },
    }
}

/// The statements of a backend.
pub fn statements(backend: Backend) -> (r: Statements)
    ensures
        r == statements_spec(backend),
{
    match backend {
        Backend::Sqlite => Statements {
            create_table: CREATE_ACCOUNTS_TABLE,
            get_by_username: GET_ACCOUNT_BY_USERNAME,
            get_by_email: GET_ACCOUNT_BY_EMAIL,
            create_account: CREATE_ACCOUNT,
            create_admin_account: CREATE_ADMIN_ACCOUNT,
        },
        Backend::Postgres => Statements {
            create_table: PG_CREATE_ACCOUNTS_TABLE,
            get_by_username: PG_GET_ACCOUNT_BY_USERNAME,
            get_by_email: PG_GET_ACCOUNT_BY_EMAIL,
            create_account: PG_CREATE_ACCOUNT,
            create_admin_account: PG_CREATE_ADMIN_ACCOUNT,
        },
    }
}

/// The insert statement for a record: the admin one where `admin` holds.
pub fn insert_statement(backend: Backend, admin: bool) -> (r: &'static str)
    ensures
        r == if admin { statements_spec(backend).create_admin_account } else {
            statements_spec(backend).create_account
        },
{
    let s = statements(backend);
    if admin { s.create_admin_account } else { s.create_account }
}

/// The number of columns of a fetched row.
pub const ACCOUNT_COLUMNS: usize = 14;

pub const COL_USERNAME: usize = 1;
pub const COL_PASSWORD: usize = 2;
pub const COL_CREATED: usize = 3;
pub const COL_FULLNAME: usize = 4;
pub const COL_DATE_OF_BIRTH: usize = 5;
pub const COL_ID_NUMBER: usize = 6;
pub const COL_GENDER: usize = 7;
pub const COL_DESCRIPTION: usize = 8;
pub const COL_EMAIL: usize = 9;
pub const COL_MOBILE_NUMBER: usize = 10;
pub const COL_WEBSITE: usize = 11;
pub const COL_LAST_LOGIN: usize = 12;
pub const COL_ACCOUNT_TYPE: usize = 13;

/// One value of a row, as the store holds it.
#[derive(Debug)]
pub enum Cell {
    Null,
    Integer(i64),
    Text(String),
    /// A value of another storage class.
    Other,
}

/// A cell that decodes as a required text.
pub open spec fn text_cell_ok(c: Cell) -> bool {
    c is Text
}

/// A cell that decodes as an optional text.
pub open spec fn opt_text_cell_ok(c: Cell) -> bool {
    c is Null || c is Text
}

/// A cell that decodes as a required date.
pub open spec fn date_cell_ok(c: Cell) -> bool {
    c is Text && iso_date_of(c->Text_0@) is Some
}

/// A cell that decodes as an optional date.
pub open spec fn opt_date_cell_ok(c: Cell) -> bool {
    c is Null || date_cell_ok(c)
}

pub open spec fn text_of(c: Cell, t: String) -> bool {
    c == Cell::Text(t)
}

pub open spec fn opt_text_of(c: Cell, t: Option<String>) -> bool {
    match t {
        None => c is Null,
        Some(s) => c == Cell::Text(s),
    }
}

pub open spec fn date_of(c: Cell, d: Date) -> bool {
    c is Text && d.wf() && iso_date_of(c->Text_0@) == Some(d.ymd())
}

pub open spec fn opt_date_of(c: Cell, d: Option<Date>) -> bool {
    match d {
        None => c is Null,
        Some(x) => date_of(c, x),
    }
}

/// Whether every column of a row holds a value of its field's kind.
pub open spec fn row_decodes(row: Seq<Cell>) -> bool {
    &&& row.len() == ACCOUNT_COLUMNS
    &&& text_cell_ok(row[COL_USERNAME as int])
    &&& text_cell_ok(row[COL_PASSWORD as int])
    &&& date_cell_ok(row[COL_CREATED as int])
    &&& opt_text_cell_ok(row[COL_FULLNAME as int])
    &&& opt_date_cell_ok(row[COL_DATE_OF_BIRTH as int])
    &&& opt_text_cell_ok(row[COL_ID_NUMBER as int])
    &&& opt_text_cell_ok(row[COL_GENDER as int])
    &&& opt_text_cell_ok(row[COL_DESCRIPTION as int])
    &&& opt_text_cell_ok(row[COL_EMAIL as int])
    &&& opt_text_cell_ok(row[COL_MOBILE_NUMBER as int])
    &&& opt_text_cell_ok(row[COL_WEBSITE as int])
    &&& opt_date_cell_ok(row[COL_LAST_LOGIN as int])
    &&& opt_text_cell_ok(row[COL_ACCOUNT_TYPE as int])
}

/// Whether a record holds, field by field, what a row's columns hold.
pub open spec fn row_holds(row: Seq<Cell>, a: Account) -> bool {
    &&& row.len() == ACCOUNT_COLUMNS
    &&& text_of(row[COL_USERNAME as int], a.username)
    &&& text_of(row[COL_PASSWORD as int], a.password)
    &&& date_of(row[COL_CREATED as int], a.created)
    &&& opt_text_of(row[COL_FULLNAME as int], a.fullname)
    &&& opt_date_of(row[COL_DATE_OF_BIRTH as int], a.date_of_birth)
    &&& opt_text_of(row[COL_ID_NUMBER as int], a.id_number)
    &&& opt_text_of(row[COL_GENDER as int], a.gender)
    &&& opt_text_of(row[COL_DESCRIPTION as int], a.description)
    &&& opt_text_of(row[COL_EMAIL as int], a.email)
    &&& opt_text_of(row[COL_MOBILE_NUMBER as int], a.mobile_number)
    &&& opt_text_of(row[COL_WEBSITE as int], a.website)
    &&& opt_date_of(row[COL_LAST_LOGIN as int], a.last_login)
    &&& opt_text_of(row[COL_ACCOUNT_TYPE as int], a.account_type)
}

fn required_text(c: &Cell) -> (r: Result<String, KontrollerError>)
    ensures
        r is Ok <==> text_cell_ok(*c),
        r is Ok ==> text_of(*c, r->Ok_0),
        r is Err ==> r->Err_0 == KontrollerError::DbField,
{
    match c {
        Cell::Text(s) => Ok(s.clone()),
        _ => Err(KontrollerError::DbField),
    }
}

fn optional_text(c: &Cell) -> (r: Result<Option<String>, KontrollerError>)
    ensures
        r is Ok <==> opt_text_cell_ok(*c),
        r is Ok ==> opt_text_of(*c, r->Ok_0),
        r is Err ==> r->Err_0 == KontrollerError::DbField,
{
    match c {
        Cell::Null => Ok(None),
        Cell::Text(s) => Ok(Some(s.clone())),
        _ => Err(KontrollerError::DbField),
    }
}

fn required_date(c: &Cell) -> (r: Result<Date, KontrollerError>)
    ensures
        r is Ok <==> date_cell_ok(*c),
        r is Ok ==> date_of(*c, r->Ok_0),
        r is Err ==> r->Err_0 == KontrollerError::DbField,
{
    match c {
        Cell::Text(s) => match Date::parse_iso(s.as_str()) {
            Some(d) => Ok(d),
            None => Err(KontrollerError::DbField),
        },
        _ => Err(KontrollerError::DbField),
    }
}

fn optional_date(c: &Cell) -> (r: Result<Option<Date>, KontrollerError>)
    ensures
        r is Ok <==> opt_date_cell_ok(*c),
        r is Ok ==> opt_date_of(*c, r->Ok_0),
        r is Err ==> r->Err_0 == KontrollerError::DbField,
{
    match c {
        Cell::Null => Ok(None),
        _ => match required_date(c) {
            Ok(d) => Ok(Some(d)),
            Err(e) => Err(e),
        },
    }
}

/// Decodes a fetched row, column by column, into the full record.
pub fn decode_account(row: &Vec<Cell>) -> (r: Result<Account, KontrollerError>)
    ensures
        r is Ok <==> row_decodes(row@),
        r is Ok ==> row_holds(row@, r->Ok_0),
        r is Err ==> r->Err_0 == KontrollerError::DbField,
{
    if row.len() != ACCOUNT_COLUMNS {
        return Err(KontrollerError::DbField);
    }
    let username = required_text(&row[COL_USERNAME]);
    let password = required_text(&row[COL_PASSWORD]);
    let created = required_date(&row[COL_CREATED]);
    let fullname = optional_text(&row[COL_FULLNAME]);
    let date_of_birth = optional_date(&row[COL_DATE_OF_BIRTH]);
    let id_number = optional_text(&row[COL_ID_NUMBER]);
    let gender = optional_text(&row[COL_GENDER]);
    let description = optional_text(&row[COL_DESCRIPTION]);
    let email = optional_text(&row[COL_EMAIL]);
    let mobile_number = optional_text(&row[COL_MOBILE_NUMBER]);
    let website = optional_text(&row[COL_WEBSITE]);
    let last_login = optional_date(&row[COL_LAST_LOGIN]);
    let account_type = optional_text(&row[COL_ACCOUNT_TYPE]);
    match (username, password, created, fullname, date_of_birth, id_number, gender) {
        (Ok(username), Ok(password), Ok(created), Ok(fullname), Ok(date_of_birth), Ok(id_number), Ok(gender)) => {
            match (description, email, mobile_number, website, last_login, account_type) {
                (Ok(description), Ok(email), Ok(mobile_number), Ok(website), Ok(last_login), Ok(account_type)) => {
                    Ok(Account {
                        username,
                        password,
                        created,
                        fullname,
                        date_of_birth,
                        id_number,
                        gender,
                        description,
                        email,
                        mobile_number,
                        website,
                        last_login,
                        account_type,
                    })
                },
                _ => Err(KontrollerError::DbField),
            }
        },
        _ => Err(KontrollerError::DbField),
    }
}

/// Decodes the username column of a fetched row into the public
/// projection.
pub fn decode_public(row: &Vec<Cell>) -> (r: Result<PublicAccount, KontrollerError>)
    ensures
        r is Ok <==> (row@.len() == ACCOUNT_COLUMNS && text_cell_ok(row@[COL_USERNAME as int])),
        r is Ok ==> text_of(row@[COL_USERNAME as int], r->Ok_0.username),
        r is Err ==> r->Err_0 == KontrollerError::DbField,
{
    if row.len() != ACCOUNT_COLUMNS {
        return Err(KontrollerError::DbField);
    }
    match required_text(&row[COL_USERNAME]) {
        Ok(username) => Ok(PublicAccount { username }),
        Err(e) => Err(e),
    }
}

/// The full record of a lookup, from the first row the query returned, if
/// any. No row is no account, not an error.
pub fn lookup_account(row: Option<Vec<Cell>>) -> (r: Result<Option<Account>, KontrollerError>)
    ensures
        row is None ==> r == Ok::<Option<Account>, KontrollerError>(None),
        row is Some ==> (r is Ok <==> row_decodes(row->0@)),
        row is Some && r is Ok ==> r->Ok_0 is Some && row_holds(row->0@, r->Ok_0->0),
        r is Err ==> r->Err_0 == KontrollerError::DbField,
{
    match row {
        None => Ok(None),
        Some(cells) => match decode_account(&cells) {
            Ok(a) => Ok(Some(a)),
            Err(e) => Err(e),
        },
    }
}

/// The public projection of a lookup, from the first row the query
/// returned, if any. No row is no account, not an error.
pub fn lookup_public(row: Option<Vec<Cell>>) -> (r: Result<Option<PublicAccount>, KontrollerError>)
    ensures
        row is None ==> r == Ok::<Option<PublicAccount>, KontrollerError>(None),
        row is Some ==> (r is Ok <==> (row->0@.len() == ACCOUNT_COLUMNS
            && text_cell_ok(row->0@[COL_USERNAME as int]))),
        row is Some && r is Ok ==> r->Ok_0 is Some
            && text_of(row->0@[COL_USERNAME as int], r->Ok_0->0.username),
        r is Err ==> r->Err_0 == KontrollerError::DbField,
{
    match row {
        None => Ok(None),
        Some(cells) => match decode_public(&cells) {
            Ok(p) => Ok(Some(p)),
            Err(e) => Err(e),
        },
    }
}

/// The public projection of a row agrees with its full record: where the
/// full decoding accepts a row, the public decoding accepts it too, and
/// both read the same username.
pub proof fn lemma_public_agrees_with_private(row: Seq<Cell>, a: Account, p: PublicAccount)
    requires
        row_holds(row, a),
        text_of(row[COL_USERNAME as int], p.username),
    ensures
        row_decodes(row),
        row.len() == ACCOUNT_COLUMNS && text_cell_ok(row[COL_USERNAME as int]),
        p.username == a.username,
{
}

/// A fetched row whose username column holds the username bound into the
/// insert reads back, through the public projection, as that username:
/// whichever key found the row, the view names the account that was
/// created.
pub proof fn lemma_inserted_username_reads_back(account: Account, values: Seq<Cell>, row: Seq<Cell>, p: PublicAccount)
    requires
        text_of(values[0], account.username),
        row.len() == ACCOUNT_COLUMNS,
        row[COL_USERNAME as int] == values[0],
        text_of(row[COL_USERNAME as int], p.username),
    ensures
        text_cell_ok(row[COL_USERNAME as int]),
        p.username == account.username,
{
}

/// The values bound into `CREATE_ACCOUNT`, or into `CREATE_ADMIN_ACCOUNT`
/// where `admin` holds: username, email, password hash, creation day, and
/// for an admin the "admin" role tag, whatever tag the record carries. A creation day that names no existing day
/// cannot be written.
pub fn insert_values(account: &Account, admin: bool) -> (r: Result<Vec<Cell>, KontrollerError>)
    ensures
        r is Err <==> !account.created.wf(),
        r is Err ==> r->Err_0 == KontrollerError::DbField,
        r is Ok ==> {
            let v = r->Ok_0@;
            &&& v.len() == if admin { 5int } else { 4int }
            &&& text_of(v[0], account.username)
            &&& opt_text_of(v[1], account.email)
            &&& text_of(v[2], account.password)
            &&& v[3] is Text && v[3]->Text_0@ == iso_text_of(account.created.ymd())
            &&& admin ==> (v[4] is Text && v[4]->Text_0@ == admin_tag())
        },
{
    if !account.created.is_valid() {
        return Err(KontrollerError::DbField);
    }
    let mut values: Vec<Cell> = Vec::new();
    values.push(Cell::Text(account.username.clone()));
    values.push(text_cell(&account.email));
    values.push(Cell::Text(account.password.clone()));
    values.push(Cell::Text(account.created.to_iso()));
    if admin {
        values.push(Cell::Text(admin_account_type()));
    }
    Ok(values)
}

/// The cell holding an optional text.
pub fn text_cell(t: &Option<String>) -> (r: Cell)
    ensures
        opt_text_of(r, *t),
{
    match t {
        Some(s) => Cell::Text(s.clone()),
        None => Cell::Null,
    }
}

} // verus!
