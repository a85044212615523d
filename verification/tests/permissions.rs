use hysterion_perms::commands::{PermsRoleCommand, RoleRequest};
use hysterion_perms::permissions::{
    check_permission, holds_match, PermsError, PlayerPermissions, Resolution, Role,
};
use hysterion_perms::store::{
    add_player_to_role, player_permissions_from_rows, role_from_row, RoleRow, SqlValue,
};

fn texts(items: &[&str]) -> Vec<String> {
    items.iter().map(|item| item.to_string()).collect()
}

fn player(roles: &[&str], direct: &[&str]) -> PlayerPermissions {
    PlayerPermissions {
        uuid: 0x936da01f_9abd_4d9d_80c7_02af85c822a8,
        roles: texts(roles),
        direct_permissions: texts(direct),
    }
}

fn role(name: &str, permissions: &[&str]) -> Role {
    Role { name: name.to_string(), permissions: texts(permissions), level: 0 }
}

/// Carries a check through against the given roles; a role that is not among
/// them cannot be fetched. Gives the answer and the names asked for.
fn carry_through(
    held: &PlayerPermissions,
    permission: &str,
    known: &[Role],
) -> (bool, Vec<String>) {
    let mut asked = Vec::new();
    let mut step = held.has_permission(permission);
    loop {
        match step {
            Resolution::Decided(answer) => return (answer, asked),
            Resolution::AwaitRole(index) => {
                let name = &held.roles[index];
                asked.push(name.clone());
                let fetched = known.iter().find(|role| &role.name == name);
                step = held.resume(permission, index, fetched);
            }
        }
    }
}

#[test]
fn direct_match_decides_before_any_role() {
    let held = player(&["broken"], &["chat.send", "world.*"]);
    assert_eq!(held.has_permission("world.edit"), Resolution::Decided(true));
    let (answer, asked) = carry_through(&held, "world.edit", &[]);
    assert!(answer);
    assert!(asked.is_empty());
}

#[test]
fn nothing_held_is_denied() {
    let held = player(&[], &[]);
    assert_eq!(held.has_permission("anything"), Resolution::Decided(false));
    assert_eq!(held.has_permission("*"), Resolution::Decided(false));
    assert_eq!(held.has_permission(""), Resolution::Decided(false));
}

#[test]
fn missing_role_is_passed_over() {
    let held = player(&["ghost", "admin"], &[]);
    let known = [role("admin", &["*"])];
    let (answer, asked) = carry_through(&held, "anything", &known);
    assert!(answer);
    assert_eq!(asked, texts(&["ghost", "admin"]));
}

#[test]
fn failed_fetch_moves_to_the_next_role() {
    let held = player(&["ghost", "admin"], &[]);
    assert_eq!(held.has_permission("anything"), Resolution::AwaitRole(0));
    assert_eq!(held.resume("anything", 0, None), Resolution::AwaitRole(1));
    assert_eq!(held.resume("anything", 1, None), Resolution::Decided(false));
}

#[test]
fn first_granting_role_ends_the_check() {
    let held = player(&["builder", "admin", "ghost"], &["chat.send"]);
    let known = [role("builder", &["world.*"]), role("admin", &["*"])];
    let (answer, asked) = carry_through(&held, "world.edit", &known);
    assert!(answer);
    assert_eq!(asked, texts(&["builder"]));
    let (answer, asked) = carry_through(&held, "server.stop", &known);
    assert!(answer);
    assert_eq!(asked, texts(&["builder", "admin"]));
}

#[test]
fn no_match_anywhere_is_denied_after_every_role() {
    let held = player(&["builder", "ghost", "guest"], &["chat.send"]);
    let known = [role("builder", &["world.*"]), role("guest", &[])];
    let (answer, asked) = carry_through(&held, "server.stop", &known);
    assert!(!answer);
    assert_eq!(asked, texts(&["builder", "ghost", "guest"]));
}

#[test]
fn role_name_is_no_permission() {
    let held = player(&["world.edit"], &[]);
    let known = [role("world.edit", &[])];
    let (answer, _) = carry_through(&held, "world.edit", &known);
    assert!(!answer);
}

#[test]
fn resume_answers_from_the_fetched_role() {
    let held = player(&["a", "b"], &[]);
    let granting = role("a", &["x.*"]);
    let other = role("a", &["y"]);
    assert_eq!(held.resume("x.y", 0, Some(&granting)), Resolution::Decided(true));
    assert_eq!(held.resume("x.y", 0, Some(&other)), Resolution::AwaitRole(1));
    assert_eq!(held.resume("x.y", 1, Some(&other)), Resolution::Decided(false));
    assert_eq!(held.resume("x.y", 1, Some(&granting)), Resolution::Decided(true));
}

#[test]
fn resume_past_the_last_role_denies() {
    let held = player(&["a"], &[]);
    assert_eq!(held.resume("x", 7, None), Resolution::Decided(false));
    assert_eq!(held.resume("x", usize::MAX, None), Resolution::Decided(false));
    assert_eq!(held.resume("x", usize::MAX, Some(&role("a", &["x"]))), Resolution::Decided(true));
}

#[test]
fn holds_match_tries_each_permission() {
    assert!(!holds_match(&texts(&[]), "fly"));
    assert!(holds_match(&texts(&["walk", "fly"]), "fly"));
    assert!(holds_match(&texts(&["walk", "f.*"]), "f.ly"));
    assert!(!holds_match(&texts(&["walk", "run"]), "fly"));
}

#[test]
fn storage_failure_denies() {
    let failed: Result<PlayerPermissions, PermsError> = Err(PermsError::StorageError);
    assert_eq!(check_permission(&failed, "world.edit"), Resolution::Decided(false));
    let missing: Result<PlayerPermissions, PermsError> = Err(PermsError::NotFound);
    assert_eq!(check_permission(&missing, "*"), Resolution::Decided(false));
}

#[test]
fn fetched_permissions_start_the_check() {
    let direct: Result<PlayerPermissions, PermsError> = Ok(player(&["admin"], &["fly"]));
    assert_eq!(check_permission(&direct, "fly"), Resolution::Decided(true));
    assert_eq!(check_permission(&direct, "swim"), Resolution::AwaitRole(0));
    let nothing: Result<PlayerPermissions, PermsError> = Ok(player(&[], &[]));
    assert_eq!(check_permission(&nothing, "swim"), Resolution::Decided(false));
}

#[test]
fn granted_role_with_wildcard_allows_everything() {
    let uuid: u128 = 0x936da01f_9abd_4d9d_80c7_02af85c822a8;
    let grant = add_player_to_role(uuid, "admin");
    assert_eq!(grant.binds[0], SqlValue::Text("936da01f-9abd-4d9d-80c7-02af85c822a8".to_string()));
    let stored_role = match &grant.binds[1] {
        SqlValue::Text(name) => name.clone(),
        SqlValue::Integer(_) => panic!("the role's name is bound as text"),
    };
    let fetched = Ok(player_permissions_from_rows(uuid, vec![stored_role], Vec::new()));
    let admin = role_from_row(Some(RoleRow {
        name: "admin".to_string(),
        permissions: "[\"*\"]".to_string(),
        level: 4,
    }));

    let held = match &fetched {
        Ok(held) => held,
        Err(_) => unreachable!(),
    };
    let answer = match check_permission(&fetched, "world.edit") {
        Resolution::Decided(answer) => answer,
        Resolution::AwaitRole(index) => {
            assert_eq!(held.roles[index], "admin");
            match held.resume("world.edit", index, admin.as_ref().ok()) {
                Resolution::Decided(answer) => answer,
                Resolution::AwaitRole(_) => panic!("one role only"),
            }
        }
    };
    assert!(answer);
}

#[test]
fn revoking_a_role_is_refused() {
    let command = PermsRoleCommand;
    match command.request("remove") {
        RoleRequest::Grant => panic!("remove must not grant"),
        RoleRequest::Refuse(message) => {
            assert_eq!(message.text, "Invalid role action. Use 'add' or 'remove'");
            assert_eq!(message.colour, None);
        }
    }
}
