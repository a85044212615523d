//! What is asked of the relational store, and what is made of its rows.
//!
//! The store holds three tables: `roles`, with the permissions of a role as
//! one JSON text; `player_roles`; and `player_permissions`. This library does
//! not reach the store. It states each request as a `Statement`, the SQL text
//! with the values for its parameters, and turns the columns of the rows
//! that come back into `Role` and `PlayerPermissions`.

use vstd::prelude::*;
use vstd::string::*;
use crate::identity::{uuid_text, write_uuid};
use crate::json::{json_string_list, json_text, parse_string_list, write_string_list};
use crate::permissions::{PermsError, PlayerPermissions, PlayerPermissionsView, Role, RoleView};

verus! {

/// Creates the table of roles unless it exists.
pub const CREATE_ROLES_TABLE: &'static str = "CREATE TABLE IF NOT EXISTS roles (
            id INTEGER PRIMARY KEY,
            name TEXT NOT NULL UNIQUE,
            permissions TEXT NOT NULL,
            level INTEGER NOT NULL
        )";

/// Creates the table that links players to roles unless it exists.
pub const CREATE_PLAYER_ROLES_TABLE: &'static str = "CREATE TABLE IF NOT EXISTS player_roles (
            id INTEGER PRIMARY KEY,
            player_uuid TEXT NOT NULL,
            role_name TEXT NOT NULL,
            FOREIGN KEY(role_name) REFERENCES roles(name)
        )";

/// Creates the table of direct permissions unless it exists.
pub const CREATE_PLAYER_PERMISSIONS_TABLE: &'static str =
    "CREATE TABLE IF NOT EXISTS player_permissions (
            id INTEGER PRIMARY KEY,
            player_uuid TEXT NOT NULL,
            permission TEXT NOT NULL
        )";

/// Writes a role's row, in place of any row of that name.
pub const UPSERT_ROLE: &'static str =
    "INSERT OR REPLACE INTO roles (name, permissions, level) VALUES ($1, $2, $3)";

/// Reads the row of the role of a given name.
pub const SELECT_ROLE: &'static str = "SELECT * FROM roles WHERE name = $1";

/// Replaces the permissions of the role of a given name.
pub const UPDATE_ROLE_PERMISSIONS: &'static str =
    "UPDATE roles SET permissions = $1 WHERE name = $2";

/// Reads the names of a player's roles.
pub const SELECT_PLAYER_ROLES: &'static str =
    "SELECT role_name FROM player_roles WHERE player_uuid = $1";

/// Reads a player's direct permissions.
pub const SELECT_PLAYER_PERMISSIONS: &'static str =
    "SELECT permission FROM player_permissions WHERE player_uuid = $1";

/// Links a player to a role.
pub const INSERT_PLAYER_ROLE: &'static str =
    "INSERT INTO player_roles (player_uuid, role_name) VALUES ($1, $2)";

/// Grants a player a permission directly.
pub const INSERT_PLAYER_PERMISSION: &'static str =
    "INSERT INTO player_permissions (player_uuid, permission) VALUES ($1, $2)";

/// The JSON text of the empty list, which a new role's row holds.
pub const NO_PERMISSIONS: &'static str = "[]";

/// A value for a parameter of a statement.
#[derive(Clone, Debug, PartialEq, Eq)]
pub enum SqlValue {
    /// A text, bound as it is.
    Text(String),
    /// A whole number.
    Integer(i32),
}

/// A value for a parameter, as mathematical data.
pub ghost enum SqlValueView {
    Text(Seq<char>),
    Integer(int),
}

impl View for SqlValue {
    type V = SqlValueView;

    open spec fn view(&self) -> SqlValueView {
        match self {
            SqlValue::Text(text) => SqlValueView::Text(text@),
            SqlValue::Integer(number) => SqlValueView::Integer(*number as int),
        }
    }
}

/// A request to the store: the SQL text and, in the order of its parameters
/// `$1`, `$2`, ..., the values to bind.
#[derive(Clone, Debug, PartialEq, Eq)]
pub struct Statement {
    pub sql: &'static str,
    pub binds: Vec<SqlValue>,
}

/// A request to the store, as mathematical data.
pub ghost struct StatementView {
    pub sql: Seq<char>,
    pub binds: Seq<SqlValueView>,
}

impl View for Statement {
    type V = StatementView;

    open spec fn view(&self) -> StatementView {
        StatementView {
            sql: self.sql@,
            binds: Seq::new(self.binds@.len(), |i: int| self.binds@[i]@),
        }
    }
}

/// A statement without parameters.
fn plain(sql: &'static str) -> (statement: Statement)
    ensures
        statement@ == (StatementView { sql: sql@, binds: seq![] }),
{
    let statement = Statement { sql, binds: Vec::new() };
    assert(statement@.binds =~= seq![]);
    statement
}

/// A statement with one text parameter.
fn keyed(sql: &'static str, key: &str) -> (statement: Statement)
    ensures
        statement@ == (StatementView { sql: sql@, binds: seq![SqlValueView::Text(key@)] }),
{
    let mut binds: Vec<SqlValue> = Vec::new();
    binds.push(SqlValue::Text(key.to_owned()));
    let statement = Statement { sql, binds };
    assert(statement@.binds =~= seq![SqlValueView::Text(key@)]);
    statement
}

/// A statement with two text parameters.
fn keyed_pair(sql: &'static str, first: &str, second: &str) -> (statement: Statement)
    ensures
        statement@ == (StatementView {
            sql: sql@,
            binds: seq![SqlValueView::Text(first@), SqlValueView::Text(second@)],
        }),
{
    let mut binds: Vec<SqlValue> = Vec::new();
    binds.push(SqlValue::Text(first.to_owned()));
    binds.push(SqlValue::Text(second.to_owned()));
    let statement = Statement { sql, binds };
    assert(statement@.binds =~= seq![SqlValueView::Text(first@), SqlValueView::Text(second@)]);
    statement
}

/// The statements that create the three tables, each only if it is absent:
/// roles, then the players' roles, then the players' permissions.
pub fn init_tables() -> (statements: Vec<Statement>)
    ensures
        statements@.len() == 3,
        statements@[0]@ == (StatementView { sql: CREATE_ROLES_TABLE@, binds: seq![] }),
        statements@[1]@ == (StatementView { sql: CREATE_PLAYER_ROLES_TABLE@, binds: seq![] }),
        statements@[2]@ == (StatementView { sql: CREATE_PLAYER_PERMISSIONS_TABLE@, binds: seq![] }),
{
    let mut statements: Vec<Statement> = Vec::new();
    statements.push(plain(CREATE_ROLES_TABLE));
    statements.push(plain(CREATE_PLAYER_ROLES_TABLE));
    statements.push(plain(CREATE_PLAYER_PERMISSIONS_TABLE));
    statements
}

/// The statement that writes the role `name` with `level` and no permissions,
/// in place of any role of that name: what the old row held is lost.
pub fn create_role(name: &str, level: i32) -> (statement: Statement)
    ensures
        statement@ == (StatementView {
            sql: UPSERT_ROLE@,
            binds: seq![
                SqlValueView::Text(name@),
                SqlValueView::Text(NO_PERMISSIONS@),
                SqlValueView::Integer(level as int),
            ],
        }),
{
    let mut binds: Vec<SqlValue> = Vec::new();
    binds.push(SqlValue::Text(name.to_owned()));
    binds.push(SqlValue::Text(NO_PERMISSIONS.to_owned()));
    binds.push(SqlValue::Integer(level));
    let statement = Statement { sql: UPSERT_ROLE, binds };
    assert(statement@.binds =~= seq![
        SqlValueView::Text(name@),
        SqlValueView::Text(NO_PERMISSIONS@),
        SqlValueView::Integer(level as int),
    ]);
    statement
}

/// The statement that reads the row of the role `name`.
pub fn get_role(name: &str) -> (statement: Statement)
    ensures
        statement@ == (StatementView { sql: SELECT_ROLE@, binds: seq![SqlValueView::Text(name@)] }),
{
    keyed(SELECT_ROLE, name)
}

/// The permissions that a row of `roles` holds as the text `stored`: the list
/// that the text reads as, and no permissions where it does not read as one.
pub open spec fn stored_permissions(stored: Seq<char>) -> Seq<Seq<char>> {
    match json_string_list(stored) {
        Some(list) => list,
        None => Seq::empty(),
    }
}

/// The role of a row whose permissions were read as `decoded`: `None`, for a
/// text that could not be read, gives a role without permissions.
pub fn role_of(name: String, decoded: Option<Vec<String>>, level: i32) -> (role: Role)
    ensures
        role@ == (RoleView {
            name: name@,
            permissions: match decoded {
                Some(list) => list.deep_view(),
                None => Seq::empty(),
            },
            level: level as int,
        }),
{
    let permissions = match decoded {
        Some(list) => list,
        None => Vec::new(),
    };
    let role = Role { name, permissions, level };
    assert(role@.permissions =~= match decoded {
        Some(list) => list.deep_view(),
        None => Seq::empty(),
    });
    role
}

/// A row of `roles` as the store gives it: the role's name, its permissions
/// as one JSON text, and its level.
#[derive(Clone, Debug, PartialEq, Eq)]
pub struct RoleRow {
    pub name: String,
    pub permissions: String,
    pub level: i32,
}

/// The role that the statement of `get_role` found: the role of the row, or
/// the error `NotFound` where there was no row. A `permissions` text that
/// does not read as a list of strings is taken for the empty list.
pub fn role_from_row(row: Option<RoleRow>) -> (fetched: Result<Role, PermsError>)
    ensures
        match row {
            Some(found) => fetched matches Ok(role) && role@ == (RoleView {
                name: found.name@,
                permissions: stored_permissions(found.permissions@),
                level: found.level as int,
            }),
            None => fetched matches Err(error) && error == PermsError::NotFound,
        },
{
    match row {
        Some(found) => {
            let decoded = match parse_string_list(found.permissions.as_str()) {
                Ok(list) => Some(list),
                Err(_) => None,
            };
            Ok(role_of(found.name, decoded, found.level))
        },
        None => Err(PermsError::NotFound),
    }
}

/// The statement that stores `encoded` as the permissions of the role
/// `role_name`, where `encoded` is the JSON text of the new list; the error
/// `StorageError` where the list could not be encoded (`None`).
pub fn update_role_permissions(role_name: &str, encoded: Option<String>) -> (outcome: Result<
    Statement,
    PermsError,
>)
    ensures
        match encoded {
            Some(text) => outcome matches Ok(statement) && statement@ == (StatementView {
                sql: UPDATE_ROLE_PERMISSIONS@,
                binds: seq![SqlValueView::Text(text@), SqlValueView::Text(role_name@)],
            }),
            None => outcome matches Err(error) && error == PermsError::StorageError,
        },
{
    match encoded {
        Some(text) => Ok(keyed_pair(UPDATE_ROLE_PERMISSIONS, text.as_str(), role_name)),
        None => Err(PermsError::StorageError),
    }
}

/// What is to be written so that a role holds `permission`, given how the
/// fetch of the role ended. A fetch that failed is handed back as it is: a
/// role that does not exist is granted nothing. A role that holds
/// `permission` already needs nothing written. For any other role it is the
/// statement that stores the role's list with `permission` at its end.
pub fn add_role_permission(fetched: Result<Role, PermsError>, permission: &str) -> (outcome: Result<
    Option<Statement>,
    PermsError,
>)
    ensures
        match fetched {
            Err(failure) => outcome == Err::<Option<Statement>, PermsError>(failure),
            Ok(role) => if role@.permissions.contains(permission@) {
                outcome matches Ok(None)
            } else {
                match json_text(role@.permissions.push(permission@)) {
                    Some(text) => outcome matches Ok(Some(statement)) && statement@ == (
                    StatementView {
                        sql: UPDATE_ROLE_PERMISSIONS@,
                        binds: seq![SqlValueView::Text(text), SqlValueView::Text(role@.name)],
                    }),
                    None => outcome matches Err(error) && error == PermsError::StorageError,
                }
            },
        },
{
    match fetched {
        Err(failure) => Err(failure),
        Ok(role) => {
            let mut role = role;
            if role.grant(permission) {
                let encoded = match write_string_list(&role.permissions) {
                    Ok(text) => Some(text),
                    Err(_) => None,
                };
                match update_role_permissions(role.name.as_str(), encoded) {
                    Ok(statement) => Ok(Some(statement)),
                    Err(error) => Err(error),
                }
            } else {
                Ok(None)
            }
        },
    }
}

/// The two statements that read what the player of the key `key` holds: first
/// the names of the player's roles, then the player's direct permissions.
pub fn select_player_permissions(key: &str) -> (statements: (Statement, Statement))
    ensures
        statements.0@ == (StatementView {
            sql: SELECT_PLAYER_ROLES@,
            binds: seq![SqlValueView::Text(key@)],
        }),
        statements.1@ == (StatementView {
            sql: SELECT_PLAYER_PERMISSIONS@,
            binds: seq![SqlValueView::Text(key@)],
        }),
{
    (keyed(SELECT_PLAYER_ROLES, key), keyed(SELECT_PLAYER_PERMISSIONS, key))
}

/// The two statements that read what the player `uuid` holds, keyed by the
/// text of the UUID: first the names of the player's roles, then the player's
/// direct permissions.
pub fn get_player_permissions(uuid: u128) -> (statements: (Statement, Statement))
    ensures
        statements.0@ == (StatementView {
            sql: SELECT_PLAYER_ROLES@,
            binds: seq![SqlValueView::Text(uuid_text(uuid))],
        }),
        statements.1@ == (StatementView {
            sql: SELECT_PLAYER_PERMISSIONS@,
            binds: seq![SqlValueView::Text(uuid_text(uuid))],
        }),
{
    let key = write_uuid(uuid);
    select_player_permissions(key.as_str())
}

/// What the player `uuid` holds, from the rows that the two statements of
/// `get_player_permissions` gave, in their order.
pub fn player_permissions_from_rows(
    uuid: u128,
    roles: Vec<String>,
    direct_permissions: Vec<String>,
) -> (held: PlayerPermissions)
    ensures
        held@ == (PlayerPermissionsView {
            uuid,
            roles: roles.deep_view(),
            direct_permissions: direct_permissions.deep_view(),
        }),
{
    PlayerPermissions { uuid, roles, direct_permissions }
}

/// The statement that links the player of the key `key` to the role
/// `role_name`. It adds a row whether or not an equal row or the role exists.
pub fn insert_player_role(key: &str, role_name: &str) -> (statement: Statement)
    ensures
        statement@ == (StatementView {
            sql: INSERT_PLAYER_ROLE@,
            binds: seq![SqlValueView::Text(key@), SqlValueView::Text(role_name@)],
        }),
{
    keyed_pair(INSERT_PLAYER_ROLE, key, role_name)
}

/// The statement that links the player `uuid`, keyed by the text of the UUID,
/// to the role `role_name`. It adds a row whether or not an equal row or the
/// role exists.
pub fn add_player_to_role(uuid: u128, role_name: &str) -> (statement: Statement)
    ensures
        statement@ == (StatementView {
            sql: INSERT_PLAYER_ROLE@,
            binds: seq![SqlValueView::Text(uuid_text(uuid)), SqlValueView::Text(role_name@)],
        }),
{
    let key = write_uuid(uuid);
    insert_player_role(key.as_str(), role_name)
}

/// The statement that grants the player of the key `key` the permission
/// `permission` directly. It adds a row whether or not an equal row exists.
pub fn insert_player_permission(key: &str, permission: &str) -> (statement: Statement)
    ensures
        statement@ == (StatementView {
            sql: INSERT_PLAYER_PERMISSION@,
            binds: seq![SqlValueView::Text(key@), SqlValueView::Text(permission@)],
        }),
{
    keyed_pair(INSERT_PLAYER_PERMISSION, key, permission)
}

/// The statement that grants the player `uuid`, keyed by the text of the
/// UUID, the permission `permission` directly. It adds a row whether or not
/// an equal row exists.
pub fn add_player_permission(uuid: u128, permission: &str) -> (statement: Statement)
    ensures
        statement@ == (StatementView {
            sql: INSERT_PLAYER_PERMISSION@,
            binds: seq![SqlValueView::Text(uuid_text(uuid)), SqlValueView::Text(permission@)],
        }),
{
    let key = write_uuid(uuid);
    insert_player_permission(key.as_str(), permission)
}

} // verus!
