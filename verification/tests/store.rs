use hysterion_perms::permissions::{PermsError, Role};
use hysterion_perms::store::{
    add_player_permission, add_player_to_role, add_role_permission, create_role,
    get_player_permissions, get_role, init_tables, insert_player_permission, insert_player_role,
    player_permissions_from_rows, role_from_row, role_of, select_player_permissions,
    update_role_permissions, RoleRow, SqlValue, Statement, NO_PERMISSIONS,
};

fn row(name: &str, permissions: &str, level: i32) -> Option<RoleRow> {
    Some(RoleRow { name: name.to_string(), permissions: permissions.to_string(), level })
}

fn stored_role(name: &str, permissions: &str, level: i32) -> Role {
    match role_from_row(row(name, permissions, level)) {
        Ok(role) => role,
        Err(error) => panic!("a row gives a role: {:?}", error),
    }
}

fn text(value: &str) -> SqlValue {
    SqlValue::Text(value.to_string())
}

fn bound_text(statement: &Statement, index: usize) -> String {
    match &statement.binds[index] {
        SqlValue::Text(value) => value.clone(),
        SqlValue::Integer(_) => panic!("a text was expected"),
    }
}

fn bound_integer(statement: &Statement, index: usize) -> i32 {
    match &statement.binds[index] {
        SqlValue::Integer(value) => *value,
        SqlValue::Text(_) => panic!("an integer was expected"),
    }
}

#[test]
fn tables_are_created_if_absent() {
    let statements = init_tables();
    assert_eq!(statements.len(), 3);
    assert!(statements[0].sql.starts_with("CREATE TABLE IF NOT EXISTS roles ("));
    assert!(statements[0].sql.contains("name TEXT NOT NULL UNIQUE"));
    assert!(statements[0].sql.contains("permissions TEXT NOT NULL"));
    assert!(statements[0].sql.contains("level INTEGER NOT NULL"));
    assert!(statements[1].sql.starts_with("CREATE TABLE IF NOT EXISTS player_roles ("));
    assert!(statements[1].sql.contains("player_uuid TEXT NOT NULL"));
    assert!(statements[1].sql.contains("FOREIGN KEY(role_name) REFERENCES roles(name)"));
    assert!(statements[2].sql.starts_with("CREATE TABLE IF NOT EXISTS player_permissions ("));
    assert!(statements[2].sql.contains("permission TEXT NOT NULL"));
    for statement in statements.iter() {
        assert!(statement.binds.is_empty());
    }
}

#[test]
fn created_role_reads_back_without_permissions() {
    let written = create_role("admin", 4);
    assert_eq!(
        written.sql,
        "INSERT OR REPLACE INTO roles (name, permissions, level) VALUES ($1, $2, $3)"
    );
    assert_eq!(written.binds, vec![text("admin"), text("[]"), SqlValue::Integer(4)]);

    let read = get_role("admin");
    assert_eq!(read.sql, "SELECT * FROM roles WHERE name = $1");
    assert_eq!(read.binds, vec![text("admin")]);

    let role = stored_role(
        &bound_text(&written, 0),
        &bound_text(&written, 1),
        bound_integer(&written, 2),
    );
    assert_eq!(role, Role { name: "admin".to_string(), permissions: vec![], level: 4 });
}

#[test]
fn creating_again_resets_the_permissions() {
    let first = create_role("admin", 4);
    let grown = add_role_permission(
        role_from_row(row(&bound_text(&first, 0), &bound_text(&first, 1), 4)),
        "fly",
    );
    assert!(matches!(grown, Ok(Some(_))));
    let again = create_role("admin", 2);
    let role = stored_role(
        &bound_text(&again, 0),
        &bound_text(&again, 1),
        bound_integer(&again, 2),
    );
    assert_eq!(role.permissions, Vec::<String>::new());
    assert_eq!(role.level, 2);
}

#[test]
fn adding_a_permission_twice_keeps_one() {
    let mut stored = NO_PERMISSIONS.to_string();

    let first = add_role_permission(role_from_row(row("admin", &stored, 4)), "fly");
    match first {
        Ok(Some(update)) => {
            assert_eq!(update.sql, "UPDATE roles SET permissions = $1 WHERE name = $2");
            assert_eq!(bound_text(&update, 1), "admin");
            stored = bound_text(&update, 0);
        }
        other => panic!("the first grant writes: {:?}", other),
    }
    assert_eq!(stored, "[\"fly\"]");

    let second = add_role_permission(role_from_row(row("admin", &stored, 4)), "fly");
    assert_eq!(second, Ok(None));

    let role = stored_role("admin", &stored, 4);
    assert_eq!(role.permissions, vec!["fly".to_string()]);
    assert_eq!(role.permissions.len(), 1);
}

#[test]
fn added_permission_goes_to_the_end() {
    let role = stored_role("builder", "[\"world.*\",\"chat.send\"]", 1);
    match add_role_permission(Ok(role), "fly") {
        Ok(Some(update)) => {
            assert_eq!(
                update.binds,
                vec![text("[\"world.*\",\"chat.send\",\"fly\"]"), text("builder")]
            );
        }
        other => panic!("the grant writes: {:?}", other),
    }
}

#[test]
fn held_permission_is_compared_exactly() {
    let role = stored_role("builder", "[\"world.*\"]", 1);
    assert!(matches!(add_role_permission(Ok(role.clone()), "world.edit"), Ok(Some(_))));
    assert!(matches!(add_role_permission(Ok(role.clone()), "World.*"), Ok(Some(_))));
    assert_eq!(add_role_permission(Ok(role), "world.*"), Ok(None));
}

#[test]
fn encoded_permissions_escape_what_json_escapes() {
    let role = stored_role("odd", "[]", 0);
    match add_role_permission(Ok(role), "say \"hi\"\\now") {
        Ok(Some(update)) => {
            let stored = bound_text(&update, 0);
            assert_eq!(stored, "[\"say \\\"hi\\\"\\\\now\"]");
            let back = stored_role("odd", &stored, 0);
            assert_eq!(back.permissions, vec!["say \"hi\"\\now".to_string()]);
        }
        other => panic!("the grant writes: {:?}", other),
    }
}

#[test]
fn unreadable_permissions_count_as_none() {
    for stored in ["", "not json", "{\"a\":1}", "[1,2]", "[\"a\"", "[\"a\"] x", "null", "\"a\""] {
        let role = stored_role("r", stored, 3);
        assert_eq!(role.permissions, Vec::<String>::new(), "stored {:?}", stored);
        assert_eq!(role.name, "r");
        assert_eq!(role.level, 3);
    }
}

#[test]
fn stored_permissions_are_read_in_order() {
    let role = stored_role("r", " [ \"b\" , \"a\", \"b\" ] ", -1);
    assert_eq!(role.permissions, vec!["b".to_string(), "a".to_string(), "b".to_string()]);
    assert_eq!(role.level, -1);
    let role = stored_role("r", "[\"\\u00e9\"]", i32::MAX);
    assert_eq!(role.permissions, vec!["é".to_string()]);
    assert_eq!(role.level, i32::MAX);
}

#[test]
fn role_of_takes_the_decoded_list_or_none() {
    let some = role_of("a".to_string(), Some(vec!["x".to_string()]), 1);
    assert_eq!(some, Role { name: "a".to_string(), permissions: vec!["x".to_string()], level: 1 });
    let none = role_of("a".to_string(), None, 1);
    assert_eq!(none, Role { name: "a".to_string(), permissions: vec![], level: 1 });
}

#[test]
fn role_grants_only_what_it_lacks() {
    let mut role = Role { name: "a".to_string(), permissions: vec!["x".to_string()], level: 0 };
    assert!(role.holds("x"));
    assert!(!role.holds("y"));
    assert!(!role.holds("X"));
    assert!(role.grant("y"));
    assert_eq!(role.permissions, vec!["x".to_string(), "y".to_string()]);
    assert!(!role.grant("y"));
    assert!(!role.grant("x"));
    assert_eq!(role.permissions, vec!["x".to_string(), "y".to_string()]);
    assert_eq!(role.name, "a");
    assert_eq!(role.level, 0);
}

#[test]
fn update_needs_the_encoded_list() {
    let written = update_role_permissions("admin", Some("[\"fly\"]".to_string()));
    assert_eq!(
        written,
        Ok(Statement {
            sql: "UPDATE roles SET permissions = $1 WHERE name = $2",
            binds: vec![text("[\"fly\"]"), text("admin")],
        })
    );
    assert_eq!(update_role_permissions("admin", None), Err(PermsError::StorageError));
}

#[test]
fn player_rows_are_read_by_identity() {
    let uuid: u128 = 0x936da01f_9abd_4d9d_80c7_02af85c822a8;
    let key = "936da01f-9abd-4d9d-80c7-02af85c822a8";
    let (roles, direct) = get_player_permissions(uuid);
    assert_eq!(roles.sql, "SELECT role_name FROM player_roles WHERE player_uuid = $1");
    assert_eq!(roles.binds, vec![text(key)]);
    assert_eq!(direct.sql, "SELECT permission FROM player_permissions WHERE player_uuid = $1");
    assert_eq!(direct.binds, vec![text(key)]);
    assert_eq!(select_player_permissions(key), (roles, direct));
}

#[test]
fn identity_is_keyed_by_its_hyphenated_text() {
    let (nil, _) = get_player_permissions(0);
    assert_eq!(nil.binds, vec![text("00000000-0000-0000-0000-000000000000")]);
    let (max, _) = get_player_permissions(u128::MAX);
    assert_eq!(max.binds, vec![text("ffffffff-ffff-ffff-ffff-ffffffffffff")]);
    let (one, _) = get_player_permissions(1);
    assert_eq!(one.binds, vec![text("00000000-0000-0000-0000-000000000001")]);
    let (mixed, _) = get_player_permissions(0x0123456789ABCDEF_FEDCBA9876543210);
    assert_eq!(mixed.binds, vec![text("01234567-89ab-cdef-fedc-ba9876543210")]);
}

#[test]
fn player_permissions_keep_the_rows_as_they_came() {
    let held = player_permissions_from_rows(
        7,
        vec!["admin".to_string(), "admin".to_string(), "guest".to_string()],
        vec!["fly".to_string(), "fly".to_string()],
    );
    assert_eq!(held.uuid, 7);
    assert_eq!(held.roles, vec!["admin".to_string(), "admin".to_string(), "guest".to_string()]);
    assert_eq!(held.direct_permissions, vec!["fly".to_string(), "fly".to_string()]);
    let empty = player_permissions_from_rows(8, vec![], vec![]);
    assert_eq!(empty.uuid, 8);
    assert!(empty.roles.is_empty());
    assert!(empty.direct_permissions.is_empty());
}

#[test]
fn grants_to_a_player_are_plain_inserts() {
    let uuid: u128 = 0x936da01f_9abd_4d9d_80c7_02af85c822a8;
    let key = "936da01f-9abd-4d9d-80c7-02af85c822a8";

    let role = add_player_to_role(uuid, "admin");
    assert_eq!(role.sql, "INSERT INTO player_roles (player_uuid, role_name) VALUES ($1, $2)");
    assert_eq!(role.binds, vec![text(key), text("admin")]);
    assert_eq!(add_player_to_role(uuid, "admin"), role);
    assert_eq!(insert_player_role(key, "admin"), role);

    let permission = add_player_permission(uuid, "world.*");
    assert_eq!(
        permission.sql,
        "INSERT INTO player_permissions (player_uuid, permission) VALUES ($1, $2)"
    );
    assert_eq!(permission.binds, vec![text(key), text("world.*")]);
    assert_eq!(insert_player_permission(key, "world.*"), permission);
}

#[test]
fn absent_row_is_not_found() {
    assert_eq!(role_from_row(None), Err(PermsError::NotFound));
    assert_eq!(add_role_permission(role_from_row(None), "fly"), Err(PermsError::NotFound));
}

#[test]
fn missing_role_is_granted_nothing() {
    assert_eq!(add_role_permission(Err(PermsError::NotFound), "fly"), Err(PermsError::NotFound));
    assert_eq!(
        add_role_permission(Err(PermsError::StorageError), "fly"),
        Err(PermsError::StorageError)
    );
}
