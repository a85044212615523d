use hysterion_perms::config::{Config, ConfigValue, RoleConfig, RoleEntry, DEFAULT_CONFIG};
use hysterion_perms::db::{database_url, DATABASE_FILE};
use hysterion_perms::plugin::{LoadStage, SeedStep};
use hysterion_perms::MyPlugin;

fn configured(level: i32, permissions: &[&str]) -> RoleConfig {
    RoleConfig { level, permissions: permissions.iter().map(|p| p.to_string()).collect() }
}

fn concat_lines(lines: &[&str]) -> String {
    lines.join("\n")
}

fn names(value: &ConfigValue) -> Vec<String> {
    (0..value.len()).map(|index| value.entry(index).unwrap().name.clone()).collect()
}

/// Takes the steps to the end; `fails` names the roles that cannot be
/// created.
fn seed(value: &ConfigValue, fails: &[&str]) -> Vec<SeedStep> {
    let plugin = MyPlugin::new();
    let mut taken = Vec::new();
    let mut step = plugin.first_seed_step(value);
    while step != SeedStep::Done {
        assert!(taken.len() < 1000);
        taken.push(step);
        let succeeded = match step {
            SeedStep::CreateRole(index) => {
                !fails.contains(&value.entry(index).unwrap().name.as_str())
            }
            _ => true,
        };
        step = plugin.next_seed_step(value, step, succeeded);
    }
    taken
}

#[test]
fn default_roles_are_default_and_admin() {
    let value = ConfigValue::default_roles();
    assert_eq!(value.len(), 2);
    assert_eq!(
        value.entry(0),
        Some(&RoleEntry { name: "default".to_string(), role: configured(0, &[]) })
    );
    assert_eq!(
        value.entry(1),
        Some(&RoleEntry { name: "admin".to_string(), role: configured(4, &["*"]) })
    );
    assert_eq!(value.entry(2), None);
    assert_eq!(value.get("admin"), Some(&configured(4, &["*"])));
    assert_eq!(value.get("default"), Some(&configured(0, &[])));
    assert_eq!(value.get("Admin"), None);
}

#[test]
fn default_text_describes_the_default_roles() {
    assert_eq!(
        DEFAULT_CONFIG,
        concat_lines(&[
            "",
            "[roles.default]",
            "level = 0",
            "permissions = []",
            "",
            "[roles.admin]",
            "level = 4",
            "permissions = [\"*\"]",
            "",
        ])
    );
}

#[test]
fn new_configuration_is_empty() {
    let value = ConfigValue::new();
    assert_eq!(value.len(), 0);
    assert_eq!(value.entry(0), None);
    assert_eq!(value.get("admin"), None);
    assert_eq!(value.position("admin"), None);
}

#[test]
fn insert_keeps_names_apart() {
    let mut value = ConfigValue::new();
    assert_eq!(value.insert("a".to_string(), configured(1, &["x"])), None);
    assert_eq!(value.insert("b".to_string(), configured(2, &[])), None);
    assert_eq!(value.insert("c".to_string(), configured(3, &["y", "z"])), None);
    assert_eq!(names(&value), vec!["a", "b", "c"]);
    assert_eq!(value.position("a"), Some(0));
    assert_eq!(value.position("b"), Some(1));
    assert_eq!(value.position("c"), Some(2));
    assert_eq!(value.position("d"), None);

    assert_eq!(value.insert("b".to_string(), configured(9, &["w"])), Some(configured(2, &[])));
    assert_eq!(names(&value), vec!["a", "b", "c"]);
    assert_eq!(value.len(), 3);
    assert_eq!(value.get("b"), Some(&configured(9, &["w"])));
    assert_eq!(value.get("a"), Some(&configured(1, &["x"])));
    assert_eq!(value.get("c"), Some(&configured(3, &["y", "z"])));
}

#[test]
fn configuration_lies_in_the_data_directory() {
    assert_eq!(Config::config_path("plugins/perms"), "plugins/perms/config.toml");
    assert_eq!(Config::config_path(""), "/config.toml");
}

#[test]
fn absent_file_gives_the_default_roles() {
    let config = Config::init("data", None);
    assert_eq!(config.file(), "data/config.toml");
    assert_eq!(names(&config.value), vec!["default", "admin"]);
    assert_eq!(names(config.value()), vec!["default", "admin"]);
    let fresh = Config::new("elsewhere/config.toml");
    assert_eq!(fresh.file(), "elsewhere/config.toml");
    assert_eq!(fresh.value.get("admin"), Some(&configured(4, &["*"])));
}

#[test]
fn loaded_file_is_kept() {
    let mut loaded = ConfigValue::new();
    loaded.insert("vip".to_string(), configured(2, &["fly"]));
    let config = Config::init("data", Some(loaded));
    assert_eq!(config.file(), "data/config.toml");
    assert_eq!(names(&config.value), vec!["vip"]);
    assert_eq!(config.value.get("vip"), Some(&configured(2, &["fly"])));
}

#[test]
fn database_address_names_sqlite() {
    assert_eq!(database_url("data/hysterion_perms.db"), "sqlite:data/hysterion_perms.db");
    assert_eq!(database_url(""), "sqlite:");
    assert_eq!(DATABASE_FILE, "hysterion_perms.db");
}

#[test]
fn plugin_is_one_value() {
    assert_eq!(MyPlugin::new(), MyPlugin);
    assert_eq!(MyPlugin::default(), MyPlugin::new());
}

#[test]
fn failed_start_names_the_stage() {
    let plugin = MyPlugin::new();
    assert_eq!(
        plugin.load_failure(LoadStage::DataDirectory, "permission denied"),
        "Failed to create data directory: permission denied"
    );
    assert_eq!(
        plugin.load_failure(LoadStage::Config, "bad toml"),
        "Failed to initialize config: bad toml"
    );
    assert_eq!(
        plugin.load_failure(LoadStage::Database, "locked"),
        "Failed to initialize database: locked"
    );
    assert_eq!(
        plugin.load_failure(LoadStage::PermissionTables, ""),
        "Failed to initialize permission tables: "
    );
}

#[test]
fn default_roles_are_seeded_in_order() {
    let value = ConfigValue::default_roles();
    assert_eq!(
        seed(&value, &[]),
        vec![SeedStep::CreateRole(0), SeedStep::CreateRole(1), SeedStep::AddPermission(1, 0)]
    );
}

#[test]
fn role_that_was_not_created_gets_no_permissions() {
    let mut value = ConfigValue::new();
    value.insert("a".to_string(), configured(1, &["x", "y"]));
    value.insert("b".to_string(), configured(2, &["z"]));
    value.insert("c".to_string(), configured(3, &[]));
    assert_eq!(
        seed(&value, &[]),
        vec![
            SeedStep::CreateRole(0),
            SeedStep::AddPermission(0, 0),
            SeedStep::AddPermission(0, 1),
            SeedStep::CreateRole(1),
            SeedStep::AddPermission(1, 0),
            SeedStep::CreateRole(2),
        ]
    );
    assert_eq!(
        seed(&value, &["a"]),
        vec![
            SeedStep::CreateRole(0),
            SeedStep::CreateRole(1),
            SeedStep::AddPermission(1, 0),
            SeedStep::CreateRole(2),
        ]
    );
    assert_eq!(
        seed(&value, &["a", "b", "c"]),
        vec![SeedStep::CreateRole(0), SeedStep::CreateRole(1), SeedStep::CreateRole(2)]
    );
}

#[test]
fn failed_grant_does_not_stop_the_seeding() {
    let plugin = MyPlugin::new();
    let mut value = ConfigValue::new();
    value.insert("a".to_string(), configured(1, &["x", "y"]));
    value.insert("b".to_string(), configured(2, &[]));
    let step = SeedStep::AddPermission(0, 0);
    assert_eq!(plugin.next_seed_step(&value, step, false), SeedStep::AddPermission(0, 1));
    assert_eq!(plugin.next_seed_step(&value, step, true), SeedStep::AddPermission(0, 1));
    let last = SeedStep::AddPermission(0, 1);
    assert_eq!(plugin.next_seed_step(&value, last, false), SeedStep::CreateRole(1));
}

#[test]
fn seeding_ends_when_nothing_is_left() {
    let plugin = MyPlugin::new();
    let empty = ConfigValue::new();
    assert_eq!(plugin.first_seed_step(&empty), SeedStep::Done);
    assert_eq!(plugin.next_seed_step(&empty, SeedStep::Done, true), SeedStep::Done);
    let value = ConfigValue::default_roles();
    assert_eq!(plugin.next_seed_step(&value, SeedStep::Done, false), SeedStep::Done);
    assert_eq!(plugin.next_seed_step(&value, SeedStep::CreateRole(7), true), SeedStep::Done);
    assert_eq!(
        plugin.next_seed_step(&value, SeedStep::AddPermission(usize::MAX, usize::MAX), true),
        SeedStep::Done
    );
    assert_eq!(
        plugin.next_seed_step(&value, SeedStep::AddPermission(0, usize::MAX), true),
        SeedStep::CreateRole(1)
    );
}
