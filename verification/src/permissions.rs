//! Roles, what a player holds, and the check of a required permission
//! against both.
//!
//! A check reads the player's direct permissions first and then the roles, one
//! at a time. The roles live in a store that this library does not reach, so a
//! check is a sequence of steps: each step either decides, or names the role
//! whose record the caller must fetch before the next step.

use vstd::prelude::*;
use vstd::string::*;
use crate::matching::{check_permission_match, permission_matches};
use crate::text::str_equal;

verus! {

/// Why the store did not give what was asked of it.
#[derive(Clone, Copy, Debug, PartialEq, Eq, Structural)]
pub enum PermsError {
    /// No role of the given name exists.
    NotFound,
    /// The store could not be read or written, or a value could not be encoded.
    StorageError,
}

/// A named bundle of permissions with a privilege level.
#[derive(Clone, Debug, PartialEq, Eq)]
pub struct Role {
    pub name: String,
    pub permissions: Vec<String>,
    pub level: i32,
}

/// A role as mathematical data.
pub ghost struct RoleView {
    pub name: Seq<char>,
    pub permissions: Seq<Seq<char>>,
    pub level: int,
}

impl View for Role {
    type V = RoleView;

    open spec fn view(&self) -> RoleView {
        RoleView {
            name: self.name@,
            permissions: self.permissions.deep_view(),
            level: self.level as int,
        }
    }
}

/// A list of permissions after `permission` was granted: the list itself
/// where it holds `permission`, else the list with `permission` at its end.
pub open spec fn granted(permissions: Seq<Seq<char>>, permission: Seq<char>) -> Seq<Seq<char>> {
    if permissions.contains(permission) {
        permissions
    } else {
        permissions.push(permission)
    }
}

impl Role {
    /// Whether the role holds exactly `permission`; wildcards play no part.
    pub fn holds(&self, permission: &str) -> (found: bool)
        ensures
            found == self@.permissions.contains(permission@),
    {
        let mut i: usize = 0;
        while i < self.permissions.len()
            invariant
                i <= self.permissions.len(),
                forall|j: int| 0 <= j < i ==> self@.permissions[j] != permission@,
            decreases self.permissions.len() - i,
        {
            assert(self@.permissions[i as int] == self.permissions@[i as int]@);
            if str_equal(self.permissions[i].as_str(), permission) {
                return true;
            }
            i += 1;
        }
        false
    }

    /// Grants the role `permission` unless it holds it already, and says
    /// whether the role has changed.
    pub fn grant(&mut self, permission: &str) -> (added: bool)
        ensures
            added == !old(self)@.permissions.contains(permission@),
            final(self)@ == (RoleView {
                permissions: granted(old(self)@.permissions, permission@),
                ..old(self)@
            }),
    {
        if self.holds(permission) {
            false
        } else {
            self.permissions.push(permission.to_owned());
            assert(self@.permissions =~= old(self)@.permissions.push(permission@));
            true
        }
    }
}

/// What one player holds: the names of the player's roles and the permissions
/// granted to the player directly, each in the order of the store. The player
/// is known by the 128 bits of a UUID, the most significant first.
#[derive(Clone, Debug, PartialEq, Eq)]
pub struct PlayerPermissions {
    pub uuid: u128,
    pub roles: Vec<String>,
    pub direct_permissions: Vec<String>,
}

/// What one player holds, as mathematical data.
pub ghost struct PlayerPermissionsView {
    pub uuid: u128,
    pub roles: Seq<Seq<char>>,
    pub direct_permissions: Seq<Seq<char>>,
}

impl View for PlayerPermissions {
    type V = PlayerPermissionsView;

    open spec fn view(&self) -> PlayerPermissionsView {
        PlayerPermissionsView {
            uuid: self.uuid,
            roles: self.roles.deep_view(),
            direct_permissions: self.direct_permissions.deep_view(),
        }
    }
}

/// Where a permission check stands.
#[derive(Clone, Copy, Debug, PartialEq, Eq, Structural)]
pub enum Resolution {
    /// The check is over: the permission is granted (`true`) or denied.
    Decided(bool),
    /// The check goes on once the role at this index of the player's roles has
    /// been fetched.
    AwaitRole(usize),
}

/// Whether one of the permissions in `held` satisfies `required`.
pub open spec fn any_matches(held: Seq<Seq<char>>, required: Seq<char>) -> bool {
    exists|i: int| 0 <= i < held.len() && permission_matches(#[trigger] held[i], required)
}

/// Whether the outcome of fetching a role yields a permission that satisfies
/// `required`. A fetch that failed (`None`) yields none.
pub open spec fn role_grants(fetched: Option<RoleView>, required: Seq<char>) -> bool {
    fetched matches Some(role) && any_matches(role.permissions, required)
}

impl PlayerPermissionsView {
    /// The step that turns to the role at index `from`: a request for it, or a
    /// denial when no role is left.
    pub open spec fn scan_roles(self, from: int) -> Resolution {
        if 0 <= from < self.roles.len() {
            Resolution::AwaitRole(from as usize)
        } else {
            Resolution::Decided(false)
        }
    }

    /// The first step of a check: a direct permission that matches grants at
    /// once, before any role is asked for.
    pub open spec fn first_step(self, required: Seq<char>) -> Resolution {
        if any_matches(self.direct_permissions, required) {
            Resolution::Decided(true)
        } else {
            self.scan_roles(0)
        }
    }

    /// The step after the role at `index` was asked for, with what came back.
    pub open spec fn next_step(
        self,
        required: Seq<char>,
        index: int,
        fetched: Option<RoleView>,
    ) -> Resolution {
        if role_grants(fetched, required) {
            Resolution::Decided(true)
        } else {
            self.scan_roles(index + 1)
        }
    }

    /// How many steps a check may still take from `step`.
    pub open spec fn steps_left(self, step: Resolution) -> nat {
        match step {
            Resolution::Decided(_) => 0,
            Resolution::AwaitRole(index) => if index < self.roles.len() {
                (self.roles.len() - index + 1) as nat
            } else {
                1
            },
        }
    }

    /// The answer that a check reaches from `step` when the request for the
    /// role at index `i` is answered with `fetched[i]`.
    pub open spec fn outcome(
        self,
        required: Seq<char>,
        fetched: Seq<Option<RoleView>>,
        step: Resolution,
    ) -> bool
        recommends
            fetched.len() == self.roles.len(),
        decreases self.steps_left(step),
        when self.roles.len() <= usize::MAX
    {
        match step {
            Resolution::Decided(answer) => answer,
            Resolution::AwaitRole(index) => if index < self.roles.len() {
                self.outcome(
                    required,
                    fetched,
                    self.next_step(required, index as int, fetched[index as int]),
                )
            } else {
                false
            },
        }
    }

    /// The indices of the roles that a check asks for from `step` to its
    /// end, in the order in which it asks.
    pub open spec fn asked(
        self,
        required: Seq<char>,
        fetched: Seq<Option<RoleView>>,
        step: Resolution,
    ) -> Seq<int>
        recommends
            fetched.len() == self.roles.len(),
        decreases self.steps_left(step),
        when self.roles.len() <= usize::MAX
    {
        match step {
            Resolution::Decided(_) => seq![],
            Resolution::AwaitRole(index) => if index < self.roles.len() {
                seq![index as int] + self.asked(
                    required,
                    fetched,
                    self.next_step(required, index as int, fetched[index as int]),
                )
            } else {
                seq![]
            },
        }
    }

    /// How many roles from index `from` on are asked for when the check has
    /// come to `from`: those up to the first that grants, that one counted,
    /// or all that are left where none grants.
    pub open spec fn reach(
        self,
        required: Seq<char>,
        fetched: Seq<Option<RoleView>>,
        from: int,
    ) -> nat
        recommends
            fetched.len() == self.roles.len(),
        decreases self.roles.len() - from,
    {
        if from < 0 || from >= self.roles.len() {
            0
        } else if role_grants(fetched[from], required) {
            1
        } else {
            1 + self.reach(required, fetched, from + 1)
        }
    }

    /// What a check means: some direct permission matches, or some role that
    /// could be fetched holds a permission that matches.
    pub open spec fn grants(self, required: Seq<char>, fetched: Seq<Option<RoleView>>) -> bool
        recommends
            fetched.len() == self.roles.len(),
    {
        ||| any_matches(self.direct_permissions, required)
        ||| exists|i: int| 0 <= i < self.roles.len() && role_grants(#[trigger] fetched[i], required)
    }
}

/// Whether one of the permissions in `held` satisfies `required`, tried in
/// order up to the first that does.
pub fn holds_match(held: &Vec<String>, required: &str) -> (found: bool)
    ensures
        found == any_matches(held.deep_view(), required@),
{
    let mut i: usize = 0;
    while i < held.len()
        invariant
            i <= held.len(),
            forall|j: int|
                0 <= j < i ==> !permission_matches(#[trigger] held.deep_view()[j], required@),
        decreases held.len() - i,
    {
        assert(held.deep_view()[i as int] == held@[i as int]@);
        if check_permission_match(held[i].as_str(), required) {
            return true;
        }
        i += 1;
    }
    false
}

impl PlayerPermissions {
    /// Starts a check of `permission`: grants at once if a direct permission
    /// matches, else asks for the first role, or denies if there is none.
    pub fn has_permission(&self, permission: &str) -> (step: Resolution)
        ensures
            step == self@.first_step(permission@),
    {
        if holds_match(&self.direct_permissions, permission) {
            Resolution::Decided(true)
        } else if self.roles.len() > 0 {
            Resolution::AwaitRole(0)
        } else {
            Resolution::Decided(false)
        }
    }

    /// Goes on with a check of `permission` after the role at `index` was asked
    /// for. `fetched` is the role's record, or `None` if it could not be
    /// fetched: such a role is passed over and the check turns to the next.
    pub fn resume(&self, permission: &str, index: usize, fetched: Option<&Role>) -> (step:
        Resolution)
        ensures
            step == self@.next_step(
                permission@,
                index as int,
                match fetched {
                    Some(role) => Some(role@),
                    None => None,
                },
            ),
    {
        let granted = match fetched {
            Some(role) => holds_match(&role.permissions, permission),
            None => false,
        };
        if granted {
            Resolution::Decided(true)
        } else if index < self.roles.len() && index + 1 < self.roles.len() {
            Resolution::AwaitRole(index + 1)
        } else {
            Resolution::Decided(false)
        }
    }
}

/// The first step of the check that an authorization hook asks for, once the
/// player's permissions were asked from the store. Where they could not be
/// fetched the permission is denied.
pub fn check_permission(
    fetched: &Result<PlayerPermissions, PermsError>,
    permission: &str,
) -> (step: Resolution)
    ensures
        step == match fetched {
            Ok(held) => held@.first_step(permission@),
            Err(_) => Resolution::Decided(false),
        },
{
    match fetched {
        Ok(held) => held.has_permission(permission),
        Err(_) => Resolution::Decided(false),
    }
}

/// A check that is carried through, each role request answered from
/// `fetched`, grants exactly when some direct permission matches or some
/// fetched role holds a permission that matches.
pub proof fn lemma_check_grants(
    held: PlayerPermissionsView,
    required: Seq<char>,
    fetched: Seq<Option<RoleView>>,
)
    requires
        held.roles.len() <= usize::MAX,
        fetched.len() == held.roles.len(),
    ensures
        held.outcome(required, fetched, held.first_step(required)) == held.grants(
            required,
            fetched,
        ),
{
    if !any_matches(held.direct_permissions, required) {
        lemma_outcome_from(held, required, fetched, 0);
    }
}

/// From the role at index `from` on, a check grants exactly when one of the
/// roles left holds a permission that matches.
proof fn lemma_outcome_from(
    held: PlayerPermissionsView,
    required: Seq<char>,
    fetched: Seq<Option<RoleView>>,
    from: int,
)
    requires
        held.roles.len() <= usize::MAX,
        fetched.len() == held.roles.len(),
        0 <= from <= held.roles.len(),
    ensures
        held.outcome(required, fetched, held.scan_roles(from)) == (exists|i: int|
            from <= i < held.roles.len() && role_grants(#[trigger] fetched[i], required)),
    decreases held.roles.len() - from,
{
    if from < held.roles.len() {
        let step = held.scan_roles(from);
        let next = held.next_step(required, from, fetched[from]);
        assert(step == Resolution::AwaitRole(from as usize));
        assert(held.outcome(required, fetched, step) == held.outcome(required, fetched, next));
        if role_grants(fetched[from], required) {
            assert(held.outcome(required, fetched, next));
        } else {
            lemma_outcome_from(held, required, fetched, from + 1);
        }
    }
}

/// A check asks for the roles in the player's order, from the first on and
/// none twice, and no further than the first role that grants. Where a direct
/// permission matches it asks for none.
pub proof fn lemma_roles_are_asked_in_order(
    held: PlayerPermissionsView,
    required: Seq<char>,
    fetched: Seq<Option<RoleView>>,
)
    requires
        held.roles.len() <= usize::MAX,
        fetched.len() == held.roles.len(),
    ensures
        held.asked(required, fetched, held.first_step(required)) == if any_matches(
            held.direct_permissions,
            required,
        ) {
            Seq::<int>::empty()
        } else {
            Seq::new(held.reach(required, fetched, 0), |i: int| i)
        },
{
    if !any_matches(held.direct_permissions, required) {
        lemma_asked_from(held, required, fetched, 0);
    }
}

/// From the role at index `from` on, a check asks for the roles one after
/// another up to the first that grants.
proof fn lemma_asked_from(
    held: PlayerPermissionsView,
    required: Seq<char>,
    fetched: Seq<Option<RoleView>>,
    from: int,
)
    requires
        held.roles.len() <= usize::MAX,
        fetched.len() == held.roles.len(),
        0 <= from <= held.roles.len(),
    ensures
        held.asked(required, fetched, held.scan_roles(from)) == Seq::new(
            held.reach(required, fetched, from),
            |i: int| from + i,
        ),
    decreases held.roles.len() - from,
{
    let expected = Seq::new(held.reach(required, fetched, from), |i: int| from + i);
    if from < held.roles.len() {
        let step = held.scan_roles(from);
        let next = held.next_step(required, from, fetched[from]);
        assert(step == Resolution::AwaitRole(from as usize));
        assert(held.asked(required, fetched, step) == seq![from] + held.asked(
            required,
            fetched,
            next,
        ));
        if role_grants(fetched[from], required) {
            assert(held.asked(required, fetched, next) =~= Seq::<int>::empty());
            assert(seq![from] + Seq::<int>::empty() =~= expected);
        } else {
            lemma_asked_from(held, required, fetched, from + 1);
            let rest = Seq::new(held.reach(required, fetched, from + 1), |i: int| from + 1 + i);
            assert(seq![from] + rest =~= expected);
        }
    } else {
        assert(held.asked(required, fetched, held.scan_roles(from)) =~= expected);
    }
}

/// A direct permission that matches decides the check at its first step:
/// no role is asked for, whatever roles the player has.
pub proof fn lemma_direct_match_decides(held: PlayerPermissionsView, required: Seq<char>)
    requires
        any_matches(held.direct_permissions, required),
    ensures
        held.first_step(required) == Resolution::Decided(true),
{
}

/// A player with no roles and no direct permissions is denied every
/// permission.
pub proof fn lemma_nothing_held_is_denied(held: PlayerPermissionsView, required: Seq<char>)
    requires
        held.roles.len() == 0,
        held.direct_permissions.len() == 0,
    ensures
        held.first_step(required) == Resolution::Decided(false),
{
}

/// A role that could not be fetched does not end the check: the check grants
/// as soon as any role that was fetched holds a permission that matches,
/// whatever became of the others.
pub proof fn lemma_failed_fetch_is_passed_over(
    held: PlayerPermissionsView,
    required: Seq<char>,
    fetched: Seq<Option<RoleView>>,
    index: int,
)
    requires
        held.roles.len() <= usize::MAX,
        fetched.len() == held.roles.len(),
        0 <= index < held.roles.len(),
    ensures
        fetched[index] is None ==> held.next_step(required, index, fetched[index])
            == held.scan_roles(index + 1),
        role_grants(fetched[index], required) ==> held.outcome(
            required,
            fetched,
            held.first_step(required),
        ),
{
    lemma_check_grants(held, required, fetched);
}

/// A player with a role that holds the global wildcard `*` is granted every
/// permission, whatever else the player holds and whatever became of the
/// other roles.
pub proof fn lemma_global_wildcard_grants_all(
    held: PlayerPermissionsView,
    required: Seq<char>,
    fetched: Seq<Option<RoleView>>,
    index: int,
)
    requires
        held.roles.len() <= usize::MAX,
        fetched.len() == held.roles.len(),
        0 <= index < held.roles.len(),
        fetched[index] matches Some(role) && role.permissions.contains(seq!['*']),
    ensures
        held.outcome(required, fetched, held.first_step(required)),
{
    let role = fetched[index]->0;
    let at = choose|i: int| 0 <= i < role.permissions.len() && role.permissions[i] == seq!['*'];
    assert(permission_matches(role.permissions[at], required));
    lemma_check_grants(held, required, fetched);
}

/// Granting a permission twice leaves what granting it once leaves, and the
/// list then holds the permission.
pub proof fn lemma_grant_is_idempotent(permissions: Seq<Seq<char>>, permission: Seq<char>)
    ensures
        granted(permissions, permission).contains(permission),
        granted(granted(permissions, permission), permission) == granted(permissions, permission),
{
    if !permissions.contains(permission) {
        let grown = permissions.push(permission);
        assert(grown[grown.len() - 1] == permission);
    }
}

/// Granting a permission keeps the permissions that were held, in their
/// order, and adds at most one.
pub proof fn lemma_grant_keeps_the_rest(permissions: Seq<Seq<char>>, permission: Seq<char>)
    ensures
        permissions.is_prefix_of(granted(permissions, permission)),
        granted(permissions, permission).len() <= permissions.len() + 1,
{
}

} // verus!
