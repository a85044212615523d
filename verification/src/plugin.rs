//! The plugin's start: the order in which the roles of the configuration and
//! their permissions are written to the store, and what a failed start
//! reports.
//!
//! The caller carries out each step and reports how it ended; the next step
//! is decided here.

use vstd::prelude::*;
use vstd::string::*;
use crate::config::{ConfigValue, RoleEntryView};

verus! {

/// What the report begins with where the data directory could not be made.
pub const DATA_DIRECTORY_FAILED: &'static str = "Failed to create data directory: ";

/// What the report begins with where the configuration could not be read.
pub const CONFIG_FAILED: &'static str = "Failed to initialize config: ";

/// What the report begins with where the database could not be opened.
pub const DATABASE_FAILED: &'static str = "Failed to initialize database: ";

/// What the report begins with where the tables could not be created.
pub const TABLES_FAILED: &'static str = "Failed to initialize permission tables: ";

/// A part of the start whose failure ends the start.
#[derive(Clone, Copy, Debug, PartialEq, Eq, Structural)]
pub enum LoadStage {
    /// The data directory is made.
    DataDirectory,
    /// The configuration is read.
    Config,
    /// The database is opened.
    Database,
    /// The tables are created.
    PermissionTables,
}

/// What the report of a failure of `stage` begins with.
pub open spec fn failure_lead(stage: LoadStage) -> Seq<char> {
    match stage {
        LoadStage::DataDirectory => DATA_DIRECTORY_FAILED@,
        LoadStage::Config => CONFIG_FAILED@,
        LoadStage::Database => DATABASE_FAILED@,
        LoadStage::PermissionTables => TABLES_FAILED@,
    }
}

/// A step in writing the configured roles to the store.
#[derive(Clone, Copy, Debug, PartialEq, Eq, Structural)]
pub enum SeedStep {
    /// The role at this index of the configuration is to be created, with
    /// its level and without permissions.
    CreateRole(usize),
    /// The role at the first index is to be granted its permission at the
    /// second index.
    AddPermission(usize, usize),
    /// Nothing is left to do.
    Done,
}

/// The step that turns to the role at index `role`: its creation, or the end
/// where no role is left.
pub open spec fn turn_to_role(entries: Seq<RoleEntryView>, role: int) -> SeedStep {
    if 0 <= role < entries.len() {
        SeedStep::CreateRole(role as usize)
    } else {
        SeedStep::Done
    }
}

/// The step that turns to the permission at index `permission` of the role
/// at index `role`: the grant of it, or the turn to the next role where the
/// role has no permission left.
pub open spec fn turn_to_permission(
    entries: Seq<RoleEntryView>,
    role: int,
    permission: int,
) -> SeedStep {
    if 0 <= role < entries.len() && 0 <= permission < entries[role].role.permissions.len() {
        SeedStep::AddPermission(role as usize, permission as usize)
    } else {
        turn_to_role(entries, role + 1)
    }
}

/// The step after `last`, which ended well or not (`succeeded`). A role that
/// could not be created is given none of its permissions; a permission that
/// could not be granted holds nothing up.
pub open spec fn next_seed_step(
    entries: Seq<RoleEntryView>,
    last: SeedStep,
    succeeded: bool,
) -> SeedStep {
    match last {
        SeedStep::CreateRole(role) => if succeeded {
            turn_to_permission(entries, role as int, 0)
        } else {
            turn_to_role(entries, role + 1)
        },
        SeedStep::AddPermission(role, permission) => turn_to_permission(
            entries,
            role as int,
            permission + 1,
        ),
        SeedStep::Done => SeedStep::Done,
    }
}

/// Whether the roles and the permissions of each can be counted by the
/// machine.
pub open spec fn countable(entries: Seq<RoleEntryView>) -> bool {
    &&& entries.len() <= usize::MAX
    &&& forall|role: int|
        0 <= role < entries.len() ==> (#[trigger] entries[role]).role.permissions.len()
            <= usize::MAX
}

/// The roles that are not done with at `step`.
pub open spec fn roles_left(entries: Seq<RoleEntryView>, step: SeedStep) -> nat {
    match step {
        SeedStep::CreateRole(role) | SeedStep::AddPermission(role, _) => if role < entries.len() {
            (entries.len() - role) as nat
        } else {
            0
        },
        SeedStep::Done => 0,
    }
}

/// The steps that the role of `step` may still take, `step` counted.
pub open spec fn grants_left(entries: Seq<RoleEntryView>, step: SeedStep) -> nat {
    match step {
        SeedStep::CreateRole(role) => if role < entries.len() {
            entries[role as int].role.permissions.len() + 1
        } else {
            0
        },
        SeedStep::AddPermission(role, permission) => if role < entries.len() && permission
            < entries[role as int].role.permissions.len() {
            (entries[role as int].role.permissions.len() - permission) as nat
        } else {
            0
        },
        SeedStep::Done => 0,
    }
}

/// The steps taken from `step` to the end, where the creation of the role at
/// index `i` ends as `created[i]` says.
pub open spec fn seed_run(entries: Seq<RoleEntryView>, created: Seq<bool>, step: SeedStep) -> Seq<
    SeedStep,
>
    recommends
        created.len() == entries.len(),
    decreases roles_left(entries, step), grants_left(entries, step),
    when countable(entries)
{
    match step {
        SeedStep::CreateRole(role) => if role < entries.len() {
            seq![step] + seed_run(
                entries,
                created,
                next_seed_step(entries, step, created[role as int]),
            )
        } else {
            seq![]
        },
        SeedStep::AddPermission(role, permission) => if role < entries.len() && permission
            < entries[role as int].role.permissions.len() {
            seq![step] + seed_run(entries, created, next_seed_step(entries, step, true))
        } else {
            seq![]
        },
        SeedStep::Done => seq![],
    }
}

/// The grants of the permissions of the role at index `role`, from the
/// permission at index `from` on.
pub open spec fn role_grants_from(entries: Seq<RoleEntryView>, role: int, from: int) -> Seq<
    SeedStep,
> {
    Seq::new(
        (entries[role].role.permissions.len() - from) as nat,
        |k: int| SeedStep::AddPermission(role as usize, (from + k) as usize),
    )
}

/// What is asked of the store for the role at index `role`: its creation
/// and, where that ended well, the grant of each of its permissions in
/// order.
pub open spec fn role_steps(entries: Seq<RoleEntryView>, role: int, created: bool) -> Seq<
    SeedStep,
> {
    if created {
        seq![SeedStep::CreateRole(role as usize)] + role_grants_from(entries, role, 0)
    } else {
        seq![SeedStep::CreateRole(role as usize)]
    }
}

/// What is asked of the store for the roles from index `from` on, role after
/// role.
pub open spec fn seed_steps(entries: Seq<RoleEntryView>, created: Seq<bool>, from: int) -> Seq<
    SeedStep,
>
    recommends
        created.len() == entries.len(),
    decreases entries.len() - from,
{
    if 0 <= from < entries.len() {
        role_steps(entries, from, created[from]) + seed_steps(entries, created, from + 1)
    } else {
        seq![]
    }
}

/// The plugin. It holds nothing: what it knows it is handed at each step.
#[derive(Clone, Copy, Debug, PartialEq, Eq, Structural)]
pub struct MyPlugin;

impl MyPlugin {
    /// The plugin, before its start.
    pub fn new() -> (plugin: Self)
        ensures
            plugin == MyPlugin,
    {
        MyPlugin
    }

    /// What a start that failed at `stage` reports, given the words of the
    /// failure.
    pub fn load_failure(&self, stage: LoadStage, cause: &str) -> (report: String)
        ensures
            report@ == failure_lead(stage) + cause@,
    {
        let mut report = match stage {
            LoadStage::DataDirectory => DATA_DIRECTORY_FAILED.to_owned(),
            LoadStage::Config => CONFIG_FAILED.to_owned(),
            LoadStage::Database => DATABASE_FAILED.to_owned(),
            LoadStage::PermissionTables => TABLES_FAILED.to_owned(),
        };
        report.append(cause);
        report
    }

    /// The first step in writing the roles of `config` to the store.
    pub fn first_seed_step(&self, config: &ConfigValue) -> (step: SeedStep)
        ensures
            step == turn_to_role(config.entries(), 0),
    {
        if config.len() > 0 {
            SeedStep::CreateRole(0)
        } else {
            SeedStep::Done
        }
    }

    /// The step after `last`, given whether `last` ended well.
    pub fn next_seed_step(
        &self,
        config: &ConfigValue,
        last: SeedStep,
        succeeded: bool,
    ) -> (step: SeedStep)
        ensures
            step == next_seed_step(config.entries(), last, succeeded),
    {
        match last {
            SeedStep::CreateRole(role) => {
                if succeeded {
                    self.permission_step(config, role, 0)
                } else {
                    self.role_step(config, role)
                }
            },
            SeedStep::AddPermission(role, permission) => {
                match config.entry(role) {
                    Some(entry) => {
                        let count = entry.role.permissions.len();
                        if permission < count && permission + 1 < count {
                            SeedStep::AddPermission(role, permission + 1)
                        } else {
                            self.role_step(config, role)
                        }
                    },
                    None => SeedStep::Done,
                }
            },
            SeedStep::Done => SeedStep::Done,
        }
    }

    /// The turn to the role after the one at index `role`.
    fn role_step(&self, config: &ConfigValue, role: usize) -> (step: SeedStep)
        ensures
            step == turn_to_role(config.entries(), role + 1),
    {
        if role < config.len() && role + 1 < config.len() {
            SeedStep::CreateRole(role + 1)
        } else {
            SeedStep::Done
        }
    }

    /// The turn to the permission at index `permission` of the role at index
    /// `role`.
    fn permission_step(&self, config: &ConfigValue, role: usize, permission: usize) -> (step:
        SeedStep)
        ensures
            step == turn_to_permission(config.entries(), role as int, permission as int),
    {
        match config.entry(role) {
            Some(entry) => {
                if permission < entry.role.permissions.len() {
                    SeedStep::AddPermission(role, permission)
                } else {
                    self.role_step(config, role)
                }
            },
            None => SeedStep::Done,
        }
    }
}

impl Default for MyPlugin {
    fn default() -> (plugin: Self)
        ensures
            plugin == MyPlugin,
    {
        MyPlugin::new()
    }
}

/// How a grant ended does not bear on the step after it.
pub proof fn lemma_failed_grant_holds_nothing_up(
    entries: Seq<RoleEntryView>,
    role: usize,
    permission: usize,
)
    ensures
        next_seed_step(entries, SeedStep::AddPermission(role, permission), false) == next_seed_step(
            entries,
            SeedStep::AddPermission(role, permission),
            true,
        ),
{
}

/// After a role that could not be created comes the next role: none of its
/// permissions is granted.
pub proof fn lemma_failed_role_is_left(entries: Seq<RoleEntryView>, role: usize)
    ensures
        next_seed_step(entries, SeedStep::CreateRole(role), false) == turn_to_role(
            entries,
            role + 1,
        ),
{
}

/// The steps from the first to the end are, role after role in the order of
/// the configuration, the creation of the role and, where it ended well, the
/// grant of each of its permissions in order.
pub proof fn lemma_seed_run(entries: Seq<RoleEntryView>, created: Seq<bool>)
    requires
        countable(entries),
        created.len() == entries.len(),
    ensures
        seed_run(entries, created, turn_to_role(entries, 0)) == seed_steps(entries, created, 0),
{
    lemma_seed_run_from(entries, created, 0);
}

proof fn lemma_seed_run_from(entries: Seq<RoleEntryView>, created: Seq<bool>, from: int)
    requires
        countable(entries),
        created.len() == entries.len(),
        0 <= from <= entries.len(),
    ensures
        seed_run(entries, created, turn_to_role(entries, from)) == seed_steps(
            entries,
            created,
            from,
        ),
    decreases entries.len() - from,
{
    if from < entries.len() {
        let step = SeedStep::CreateRole(from as usize);
        let next = next_seed_step(entries, step, created[from]);
        assert(turn_to_role(entries, from) == step);
        assert(seed_run(entries, created, step) == seq![step] + seed_run(entries, created, next));
        lemma_seed_run_from(entries, created, from + 1);
        if created[from] {
            lemma_seed_run_in_role(entries, created, from, 0);
            assert(seed_run(entries, created, step) =~= seed_steps(entries, created, from));
        } else {
            assert(seed_run(entries, created, step) =~= seed_steps(entries, created, from));
        }
    }
}

proof fn lemma_seed_run_in_role(
    entries: Seq<RoleEntryView>,
    created: Seq<bool>,
    role: int,
    from: int,
)
    requires
        countable(entries),
        created.len() == entries.len(),
        0 <= role < entries.len(),
        0 <= from <= entries[role].role.permissions.len(),
        seed_run(entries, created, turn_to_role(entries, role + 1)) == seed_steps(
            entries,
            created,
            role + 1,
        ),
    ensures
        seed_run(entries, created, turn_to_permission(entries, role, from)) == role_grants_from(
            entries,
            role,
            from,
        ) + seed_steps(entries, created, role + 1),
    decreases entries[role].role.permissions.len() - from,
{
    let rest = seed_steps(entries, created, role + 1);
    if from < entries[role].role.permissions.len() {
        let step = SeedStep::AddPermission(role as usize, from as usize);
        let next = next_seed_step(entries, step, true);
        assert(turn_to_permission(entries, role, from) == step);
        assert(next == turn_to_permission(entries, role, from + 1));
        assert(seed_run(entries, created, step) == seq![step] + seed_run(entries, created, next));
        lemma_seed_run_in_role(entries, created, role, from + 1);
        assert(role_grants_from(entries, role, from) =~= seq![step] + role_grants_from(
            entries,
            role,
            from + 1,
        ));
        assert(seq![step] + (role_grants_from(entries, role, from + 1) + rest) =~= (seq![step]
            + role_grants_from(entries, role, from + 1)) + rest);
    } else {
        assert(role_grants_from(entries, role, from) =~= seq![]);
        assert(role_grants_from(entries, role, from) + rest =~= rest);
    }
}

} // verus!
