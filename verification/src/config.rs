//! The configuration: the roles to set up at start, each with its level and
//! permissions.
//!
//! The file is read and parsed by the caller. Here is what it holds, where it
//! lies, and the value that stands in when it is absent.

use vstd::prelude::*;
use vstd::string::*;
use crate::text::str_equal;

verus! {

/// The name of the configuration file within the data directory.
pub const CONFIG_FILE: &'static str = "/config.toml";

/// The text written as the configuration file where none exists. It
/// describes the roles of `ConfigValue::default_roles`.
pub const DEFAULT_CONFIG: &'static str = "
[roles.default]
level = 0
permissions = []

[roles.admin]
level = 4
permissions = [\"*\"]
";

/// The name of the role that the default configuration gives everyone.
pub const DEFAULT_ROLE: &'static str = "default";

/// The name of the role that the default configuration gives everything.
pub const ADMIN_ROLE: &'static str = "admin";

/// The permission of the role `admin`: the global wildcard.
pub const EVERYTHING: &'static str = "*";

/// What the configuration says of one role.
#[derive(Clone, Debug, PartialEq, Eq)]
pub struct RoleConfig {
    pub level: i32,
    pub permissions: Vec<String>,
}

/// What the configuration says of one role, as mathematical data.
pub ghost struct RoleConfigView {
    pub level: int,
    pub permissions: Seq<Seq<char>>,
}

impl View for RoleConfig {
    type V = RoleConfigView;

    open spec fn view(&self) -> RoleConfigView {
        RoleConfigView { level: self.level as int, permissions: self.permissions.deep_view() }
    }
}

/// A role of the configuration under its name.
#[derive(Clone, Debug, PartialEq, Eq)]
pub struct RoleEntry {
    pub name: String,
    pub role: RoleConfig,
}

/// A role of the configuration under its name, as mathematical data.
pub ghost struct RoleEntryView {
    pub name: Seq<char>,
    pub role: RoleConfigView,
}

impl View for RoleEntry {
    type V = RoleEntryView;

    open spec fn view(&self) -> RoleEntryView {
        RoleEntryView { name: self.name@, role: self.role@ }
    }
}

/// Whether no two entries have the same name.
pub open spec fn names_distinct(entries: Seq<RoleEntryView>) -> bool {
    forall|i: int, j: int|
        0 <= i < j < entries.len() ==> (#[trigger] entries[i]).name != (#[trigger] entries[j]).name
}

/// The index of the entry named `name`, or -1 where no entry has that name.
pub open spec fn position_of(entries: Seq<RoleEntryView>, name: Seq<char>) -> int
    decreases entries.len(),
{
    if entries.len() == 0 {
        -1
    } else if entries.last().name == name {
        entries.len() - 1
    } else {
        position_of(entries.drop_last(), name)
    }
}

/// `position_of` gives the index of an entry of the given name where there is
/// one, and -1 where there is none.
pub proof fn lemma_position_of(entries: Seq<RoleEntryView>, name: Seq<char>)
    ensures
        -1 <= position_of(entries, name) < entries.len(),
        position_of(entries, name) >= 0 ==> entries[position_of(entries, name)].name == name,
        position_of(entries, name) == -1 ==> forall|i: int|
            0 <= i < entries.len() ==> (#[trigger] entries[i]).name != name,
    decreases entries.len(),
{
    if entries.len() != 0 && entries.last().name != name {
        lemma_position_of(entries.drop_last(), name);
        assert forall|i: int| 0 <= i < entries.len() && position_of(entries, name)
            == -1 implies (#[trigger] entries[i]).name != name by {
            if i < entries.len() - 1 {
                assert(entries.drop_last()[i] == entries[i]);
            }
        }
    }
}

/// The entries after the role `name` was set to `role`: the entry of that
/// name holds `role` in its place, or a new entry stands at the end.
pub open spec fn with_role(
    entries: Seq<RoleEntryView>,
    name: Seq<char>,
    role: RoleConfigView,
) -> Seq<RoleEntryView> {
    let entry = RoleEntryView { name, role };
    if position_of(entries, name) >= 0 {
        entries.update(position_of(entries, name), entry)
    } else {
        entries.push(entry)
    }
}

/// The roles of the configuration, each under its name. No name occurs twice,
/// and the roles keep the order in which their names first came.
#[derive(Debug)]
pub struct ConfigValue {
    roles: Vec<RoleEntry>,
}

impl ConfigValue {
    #[verifier::type_invariant]
    spec fn well_formed(self) -> bool {
        names_distinct(Seq::new(self.roles@.len(), |i: int| self.roles@[i]@))
    }

    /// The roles in their order.
    pub closed spec fn entries(&self) -> Seq<RoleEntryView> {
        Seq::new(self.roles@.len(), |i: int| self.roles@[i]@)
    }

    /// A configuration without roles.
    pub fn new() -> (value: Self)
        ensures
            value.entries() == Seq::<RoleEntryView>::empty(),
    {
        let value = ConfigValue { roles: Vec::new() };
        assert(value.entries() =~= Seq::<RoleEntryView>::empty());
        value
    }

    /// The roles of the configuration that stands in for an absent file:
    /// `default`, at level 0 without permissions, and `admin`, at level 4
    /// with the global wildcard.
    pub fn default_roles() -> (value: Self)
        ensures
            value.entries() == seq![
                RoleEntryView {
                    name: DEFAULT_ROLE@,
                    role: RoleConfigView { level: 0, permissions: seq![] },
                },
                RoleEntryView {
                    name: ADMIN_ROLE@,
                    role: RoleConfigView { level: 4, permissions: seq![EVERYTHING@] },
                },
            ],
    {
        let mut everything: Vec<String> = Vec::new();
        everything.push(EVERYTHING.to_owned());
        let mut roles: Vec<RoleEntry> = Vec::new();
        roles.push(
            RoleEntry {
                name: DEFAULT_ROLE.to_owned(),
                role: RoleConfig { level: 0, permissions: Vec::new() },
            },
        );
        roles.push(
            RoleEntry {
                name: ADMIN_ROLE.to_owned(),
                role: RoleConfig { level: 4, permissions: everything },
            },
        );
        proof {
            reveal_strlit("default");
            reveal_strlit("admin");
            assert(DEFAULT_ROLE@.len() != ADMIN_ROLE@.len());
            assert(roles@[0]@.role.permissions =~= seq![]);
            assert(roles@[1]@.role.permissions =~= seq![EVERYTHING@]);
        }
        let value = ConfigValue { roles };
        assert(value.entries() =~= seq![
            RoleEntryView {
                name: DEFAULT_ROLE@,
                role: RoleConfigView { level: 0, permissions: seq![] },
            },
            RoleEntryView {
                name: ADMIN_ROLE@,
                role: RoleConfigView { level: 4, permissions: seq![EVERYTHING@] },
            },
        ]);
        value
    }

    /// The number of roles. No name occurs twice among them.
    pub fn len(&self) -> (count: usize)
        ensures
            count == self.entries().len(),
            names_distinct(self.entries()),
    {
        proof {
            use_type_invariant(self);
        }
        self.roles.len()
    }

    /// The role at `index` in the order of the roles, or `None` past the
    /// last.
    pub fn entry(&self, index: usize) -> (entry: Option<&RoleEntry>)
        ensures
            match entry {
                Some(found) => {
                    &&& index < self.entries().len()
                    &&& found@ == self.entries()[index as int]
                },
                None => index >= self.entries().len(),
            },
    {
        if index < self.roles.len() {
            Some(&self.roles[index])
        } else {
            None
        }
    }

    /// Where the role `name` stands, or `None` where there is no such role.
    pub fn position(&self, name: &str) -> (found: Option<usize>)
        ensures
            match found {
                Some(index) => index == position_of(self.entries(), name@) && index
                    < self.entries().len(),
                None => position_of(self.entries(), name@) == -1,
            },
    {
        let mut i: usize = self.roles.len();
        proof {
            assert(self.entries().take(i as int) =~= self.entries());
            lemma_position_of(self.entries(), name@);
        }
        while i > 0
            invariant
                i <= self.roles.len(),
                position_of(self.entries(), name@) == position_of(
                    self.entries().take(i as int),
                    name@,
                ),
            decreases i,
        {
            let ghost front = self.entries().take(i as int);
            i -= 1;
            proof {
                assert(front.last() == self.roles@[i as int]@);
                assert(front.drop_last() =~= self.entries().take(i as int));
            }
            if str_equal(self.roles[i].name.as_str(), name) {
                return Some(i);
            }
        }
        None
    }

    /// What the configuration says of the role `name`, if it names it.
    pub fn get(&self, name: &str) -> (role: Option<&RoleConfig>)
        ensures
            match role {
                Some(found) => position_of(self.entries(), name@) >= 0 && found@
                    == self.entries()[position_of(self.entries(), name@)].role,
                None => position_of(self.entries(), name@) == -1,
            },
    {
        match self.position(name) {
            Some(index) => Some(&self.roles[index].role),
            None => None,
        }
    }

    /// Sets the role `name` to `role`. A role of that name keeps its place and
    /// what it held is handed back; a new name goes to the end.
    pub fn insert(&mut self, name: String, role: RoleConfig) -> (replaced: Option<RoleConfig>)
        ensures
            final(self).entries() == with_role(old(self).entries(), name@, role@),
            match replaced {
                Some(previous) => position_of(old(self).entries(), name@) >= 0 && previous@
                    == old(self).entries()[position_of(old(self).entries(), name@)].role,
                None => position_of(old(self).entries(), name@) == -1,
            },
    {
        proof {
            use_type_invariant(&*self);
            lemma_position_of(self.entries(), name@);
        }
        let found = self.position(name.as_str());
        let ghost before = self.entries();
        let mut roles: Vec<RoleEntry> = Vec::new();
        std::mem::swap(&mut roles, &mut self.roles);
        let replaced = match found {
            Some(index) => {
                let mut entry = RoleEntry { name, role };
                std::mem::swap(&mut entry, &mut roles[index]);
                Some(entry.role)
            },
            None => {
                roles.push(RoleEntry { name, role });
                None
            },
        };
        proof {
            let after = Seq::new(roles@.len(), |i: int| roles@[i]@);
            assert(after =~= with_role(before, name@, role@));
            assert(names_distinct(after));
        }
        self.roles = roles;
        replaced
    }
}

/// The configuration and the file that it belongs to.
#[derive(Debug)]
pub struct Config {
    pub value: ConfigValue,
    path: String,
}

impl Config {
    /// The path of the configuration file within the data directory
    /// `directory`.
    pub fn config_path(directory: &str) -> (path: String)
        ensures
            path@ == directory@ + CONFIG_FILE@,
    {
        let mut path = directory.to_owned();
        path.append(CONFIG_FILE);
        path
    }

    /// The configuration that stands in for an absent file at `path`: the
    /// roles of `ConfigValue::default_roles`.
    pub fn new(path: &str) -> (config: Self)
        ensures
            config.path() == path@,
            config.roles() == seq![
                RoleEntryView {
                    name: DEFAULT_ROLE@,
                    role: RoleConfigView { level: 0, permissions: seq![] },
                },
                RoleEntryView {
                    name: ADMIN_ROLE@,
                    role: RoleConfigView { level: 4, permissions: seq![EVERYTHING@] },
                },
            ],
    {
        Config { value: ConfigValue::default_roles(), path: path.to_owned() }
    }

    /// The configuration of the data directory `directory`: what was read
    /// from its configuration file, or, where there was no file (`None`),
    /// what `new` gives.
    pub fn init(directory: &str, loaded: Option<ConfigValue>) -> (config: Self)
        ensures
            config.path() == directory@ + CONFIG_FILE@,
            match loaded {
                Some(value) => config.roles() == value.entries(),
                None => config.roles() == seq![
                    RoleEntryView {
                        name: DEFAULT_ROLE@,
                        role: RoleConfigView { level: 0, permissions: seq![] },
                    },
                    RoleEntryView {
                        name: ADMIN_ROLE@,
                        role: RoleConfigView { level: 4, permissions: seq![EVERYTHING@] },
                    },
                ],
            },
    {
        let path = Config::config_path(directory);
        match loaded {
            Some(value) => Config { value, path },
            None => Config::new(path.as_str()),
        }
    }

    /// The path of the file that the configuration belongs to.
    pub closed spec fn path(&self) -> Seq<char> {
        self.path@
    }

    /// The roles of the configuration in their order.
    pub closed spec fn roles(&self) -> Seq<RoleEntryView> {
        self.value.entries()
    }

    /// The roles of the configuration.
    pub fn value(&self) -> (value: &ConfigValue)
        ensures
            value.entries() == self.roles(),
    {
        &self.value
    }

    /// The path of the file that the configuration belongs to.
    pub fn file(&self) -> (path: &str)
        ensures
            path@ == self.path(),
    {
        self.path.as_str()
    }
}

} // verus!
