//! What the `perms` commands answer.
//!
//! The command framework parses a command, and the store is asked by the
//! caller. What is decided here is which request a command makes and which
//! chat messages it answers with, given how the request ended.

use vstd::prelude::*;
use vstd::string::*;
use crate::permissions::{PermsError, PlayerPermissions};
use crate::text::{join, joined, str_equal};
use crate::utils::{error_colour, neutral_colour, success_colour, Colour};

verus! {

/// The name under which the commands are registered.
pub const COMMAND_NAME: &'static str = "perms";

/// The description shown for the commands.
pub const COMMAND_DESCRIPTION: &'static str = "Manage permissions";

/// The answer of the bare command.
pub const BANNER: &'static str = "Hysterion Permissions Plugin";

/// The answer of the command that only tells how `perms` is used.
pub const USAGE: &'static str = "Usage: /perms <role/add/ping>";

/// The name of the command that tests whether the plugin answers.
pub const PING_NAME: &'static str = "ping";

/// The description of the command that tests whether the plugin answers.
pub const PING_DESCRIPTION: &'static str = "Test command.";

/// The answer of the command that tests whether the plugin answers.
pub const PONG: &'static str = "Pong!";

/// The privilege level that the commands ask of whoever gives them.
pub const COMMAND_LEVEL: i32 = 4;

/// The word of the command that grants a permission, and the only action
/// that the role command carries out.
pub const ADD_ACTION: &'static str = "add";

/// The word of the command that deals with roles, and the name of its
/// argument for the role.
pub const ROLE: &'static str = "role";

/// The word of the command that shows what a player holds.
pub const INFO: &'static str = "info";

/// The name of the argument for the player.
pub const PLAYER: &'static str = "player";

/// The name of the argument for the permission.
pub const PERMISSION: &'static str = "permission";

/// The name of the argument for the role command's action.
pub const ROLE_ACTION: &'static str = "role_action";

/// The answer to an action that the role command does not carry out.
pub const INVALID_ROLE_ACTION: &'static str = "Invalid role action. Use 'add' or 'remove'";

/// What the report of a granted permission begins with.
pub const ADDED_PERMISSION: &'static str = "Added permission ";

/// What the report of a granted role begins with.
pub const ADDED_ROLE: &'static str = "Added role ";

/// What stands between what was granted and the player's name.
pub const TO: &'static str = " to ";

/// The answer where the store failed to grant a permission.
pub const ADD_PERMISSION_FAILED: &'static str = "Failed to add permission";

/// The answer where the store failed to grant a role.
pub const ADD_ROLE_FAILED: &'static str = "Failed to add role";

/// The answer where the store failed to say what a player holds.
pub const INFO_FAILED: &'static str = "Failed to get player permissions";

/// What stands before the player's name in the header.
pub const HEADER_OPEN: &'static str = "=== ";

/// What stands after the player's name in the header.
pub const HEADER_CLOSE: &'static str = " Permissions ===";

/// What the line of roles begins with.
pub const ROLES_LABEL: &'static str = "Roles: ";

/// What the line of direct permissions begins with.
pub const DIRECT_LABEL: &'static str = "Direct Permissions: ";

/// What stands in place of an empty list.
pub const NONE: &'static str = "None";

/// What stands between the items of a list.
pub const SEPARATOR: &'static str = ", ";

/// A chat message: its text and, where it has one, its colour.
#[derive(Clone, Debug, PartialEq, Eq)]
pub struct Message {
    pub text: String,
    pub colour: Option<Colour>,
}

/// A chat message as mathematical data.
pub ghost struct MessageView {
    pub text: Seq<char>,
    pub colour: Option<Colour>,
}

impl View for Message {
    type V = MessageView;

    open spec fn view(&self) -> MessageView {
        MessageView { text: self.text@, colour: self.colour }
    }
}

/// The message of a grant that was carried out: `lead`, what was granted,
/// ` to ` and the player's name, in the colour of success.
pub open spec fn grant_report(
    lead: Seq<char>,
    granted: Seq<char>,
    player: Seq<char>,
) -> MessageView {
    MessageView {
        text: lead + granted + TO@ + player,
        colour: Some(Colour { red: 105, green: 255, blue: 145 }),
    }
}

/// The message of a request that the store failed, in the colour of failure.
pub open spec fn failure_report(text: Seq<char>) -> MessageView {
    MessageView { text, colour: Some(Colour { red: 255, green: 46, blue: 105 }) }
}

/// A line that lists `items` behind `label`, or the word `None` where there
/// are no items.
pub open spec fn listing(label: Seq<char>, items: Seq<Seq<char>>) -> Seq<char> {
    if items.len() == 0 {
        label + NONE@
    } else {
        label + joined(items, SEPARATOR@)
    }
}

/// The three lines that describe what the player `player` holds.
pub open spec fn info_lines(
    player: Seq<char>,
    roles: Seq<Seq<char>>,
    direct_permissions: Seq<Seq<char>>,
) -> Seq<MessageView> {
    let neutral = Some(Colour { red: 105, green: 200, blue: 255 });
    seq![
        MessageView {
            text: HEADER_OPEN@ + player + HEADER_CLOSE@,
            colour: Some(Colour { red: 105, green: 255, blue: 145 }),
        },
        MessageView { text: listing(ROLES_LABEL@, roles), colour: neutral },
        MessageView { text: listing(DIRECT_LABEL@, direct_permissions), colour: neutral },
    ]
}

/// The views of a list of messages.
pub open spec fn message_views(messages: Seq<Message>) -> Seq<MessageView> {
    Seq::new(messages.len(), |i: int| messages[i]@)
}

/// The message of a grant that was carried out.
fn report_grant(lead: &str, granted: &str, player: &str) -> (message: Message)
    ensures
        message@ == grant_report(lead@, granted@, player@),
{
    let mut text = lead.to_owned();
    text.append(granted);
    text.append(TO);
    text.append(player);
    Message { text, colour: Some(success_colour()) }
}

/// The message of a request that the store failed.
fn report_failure(text: &str) -> (message: Message)
    ensures
        message@ == failure_report(text@),
{
    Message { text: text.to_owned(), colour: Some(error_colour()) }
}

/// The line that lists `items` behind `label`, in the colour that informs.
fn list_line(label: &str, items: &Vec<String>) -> (message: Message)
    ensures
        message@ == (MessageView {
            text: listing(label@, items.deep_view()),
            colour: Some(Colour { red: 105, green: 200, blue: 255 }),
        }),
{
    let mut text = label.to_owned();
    if items.len() == 0 {
        text.append(NONE);
    } else {
        let list = join(items, SEPARATOR);
        text.append(list.as_str());
    }
    Message { text, colour: Some(neutral_colour()) }
}

/// How the command framework reads an argument.
#[derive(Clone, Copy, Debug, PartialEq, Eq, Structural)]
pub enum ArgumentKind {
    /// One or more players.
    Players,
    /// One word.
    Simple,
}

/// An argument of a command: the name under which its value is handed on,
/// and how it is read.
#[derive(Clone, Copy, Debug, PartialEq, Eq)]
pub struct Argument {
    pub name: &'static str,
    pub kind: ArgumentKind,
}

/// An argument as mathematical data.
pub ghost struct ArgumentView {
    pub name: Seq<char>,
    pub kind: ArgumentKind,
}

impl View for Argument {
    type V = ArgumentView;

    open spec fn view(&self) -> ArgumentView {
        ArgumentView { name: self.name@, kind: self.kind }
    }
}

/// The command that answers a form.
#[derive(Clone, Copy, Debug, PartialEq, Eq, Structural)]
pub enum Handler {
    /// The bare command.
    Perms,
    /// The grant of a permission.
    Add,
    /// The role command.
    Role,
    /// The listing of what a player holds.
    Info,
}

/// One form of the command: the word after `perms`, if any, the arguments
/// after it in order, the command that answers, and whether the form is open
/// only to those with the privilege level of the commands.
#[derive(Clone, Debug, PartialEq, Eq)]
pub struct Route {
    pub literal: Option<&'static str>,
    pub arguments: Vec<Argument>,
    pub handler: Handler,
    pub requires_permission: bool,
}

/// A form of the command as mathematical data.
pub ghost struct RouteView {
    pub literal: Option<Seq<char>>,
    pub arguments: Seq<ArgumentView>,
    pub handler: Handler,
    pub requires_permission: bool,
}

impl View for Route {
    type V = RouteView;

    open spec fn view(&self) -> RouteView {
        RouteView {
            literal: match self.literal {
                Some(word) => Some(word@),
                None => None,
            },
            arguments: Seq::new(self.arguments@.len(), |i: int| self.arguments@[i]@),
            handler: self.handler,
            requires_permission: self.requires_permission,
        }
    }
}

/// A form that asks for the privilege level, as mathematical data.
pub open spec fn guarded(
    literal: Option<Seq<char>>,
    arguments: Seq<ArgumentView>,
    handler: Handler,
) -> RouteView {
    RouteView { literal, arguments, handler, requires_permission: true }
}

/// An argument that names players.
pub open spec fn players(name: Seq<char>) -> ArgumentView {
    ArgumentView { name, kind: ArgumentKind::Players }
}

/// An argument of one word.
pub open spec fn word(name: Seq<char>) -> ArgumentView {
    ArgumentView { name, kind: ArgumentKind::Simple }
}

/// A form that asks for the privilege level.
fn route(
    literal: Option<&'static str>,
    arguments: Vec<Argument>,
    handler: Handler,
) -> (route: Route)
    ensures
        route@ == guarded(
            match literal {
                Some(word) => Some(word@),
                None => None,
            },
            Seq::new(arguments@.len(), |i: int| arguments@[i]@),
            handler,
        ),
{
    Route { literal, arguments, handler, requires_permission: true }
}

/// The bare command `perms`.
pub struct PermsCommand;

impl PermsCommand {
    /// The forms of the command: the bare command, `add <player>
    /// <permission>`, `role <role_action> <player> <role>` and `info
    /// <player>`, each open only to those with the privilege level.
    pub fn init_command() -> (routes: Vec<Route>)
        ensures
            routes@.len() == 4,
            routes@[0]@ == guarded(None, seq![], Handler::Perms),
            routes@[1]@ == guarded(
                Some(ADD_ACTION@),
                seq![players(PLAYER@), word(PERMISSION@)],
                Handler::Add,
            ),
            routes@[2]@ == guarded(
                Some(ROLE@),
                seq![word(ROLE_ACTION@), players(PLAYER@), word(ROLE@)],
                Handler::Role,
            ),
            routes@[3]@ == guarded(Some(INFO@), seq![players(PLAYER@)], Handler::Info),
    {
        let player = Argument { name: PLAYER, kind: ArgumentKind::Players };
        let mut routes: Vec<Route> = Vec::new();

        let bare: Vec<Argument> = Vec::new();
        assert(Seq::new(bare@.len(), |i: int| bare@[i]@) =~= seq![]);
        routes.push(route(None, bare, Handler::Perms));

        let mut add: Vec<Argument> = Vec::new();
        add.push(player);
        add.push(Argument { name: PERMISSION, kind: ArgumentKind::Simple });
        assert(Seq::new(add@.len(), |i: int| add@[i]@) =~= seq![
            players(PLAYER@),
            word(PERMISSION@),
        ]);
        routes.push(route(Some(ADD_ACTION), add, Handler::Add));

        let mut role: Vec<Argument> = Vec::new();
        role.push(Argument { name: ROLE_ACTION, kind: ArgumentKind::Simple });
        role.push(player);
        role.push(Argument { name: ROLE, kind: ArgumentKind::Simple });
        assert(Seq::new(role@.len(), |i: int| role@[i]@) =~= seq![
            word(ROLE_ACTION@),
            players(PLAYER@),
            word(ROLE@),
        ]);
        routes.push(route(Some(ROLE), role, Handler::Role));

        let mut info: Vec<Argument> = Vec::new();
        info.push(player);
        assert(Seq::new(info@.len(), |i: int| info@[i]@) =~= seq![players(PLAYER@)]);
        routes.push(route(Some(INFO), info, Handler::Info));

        routes
    }

    /// The name under which the commands are registered.
    pub fn get_name(&self) -> (name: &'static str)
        ensures
            name@ == COMMAND_NAME@,
    {
        COMMAND_NAME
    }

    /// The description shown for the commands.
    pub fn get_description(&self) -> (description: &'static str)
        ensures
            description@ == COMMAND_DESCRIPTION@,
    {
        COMMAND_DESCRIPTION
    }

    /// The answer of the bare command: the plugin's name, in the colour of
    /// success.
    pub fn execute(&self) -> (message: Message)
        ensures
            message@ == (MessageView {
                text: BANNER@,
                colour: Some(Colour { red: 105, green: 255, blue: 145 }),
            }),
    {
        Message { text: BANNER.to_owned(), colour: Some(success_colour()) }
    }
}

/// The command `perms add <player> <permission>`, which grants a player a
/// permission directly.
pub struct PermsAddCommand;

impl PermsAddCommand {
    /// The answer once the store was asked to grant `permission` to the
    /// player named `player_name`: a report of the grant, or a report of the
    /// failure where the store failed.
    pub fn execute(
        &self,
        permission: &str,
        player_name: &str,
        outcome: Result<(), PermsError>,
    ) -> (message: Message)
        ensures
            message@ == match outcome {
                Ok(_) => grant_report(ADDED_PERMISSION@, permission@, player_name@),
                Err(_) => failure_report(ADD_PERMISSION_FAILED@),
            },
    {
        match outcome {
            Ok(_) => report_grant(ADDED_PERMISSION, permission, player_name),
            Err(_) => report_failure(ADD_PERMISSION_FAILED),
        }
    }
}

/// What the role command does with an action.
#[derive(Clone, Debug, PartialEq, Eq)]
pub enum RoleRequest {
    /// The player is to be linked to the role.
    Grant,
    /// Nothing is asked of the store; the message is the answer.
    Refuse(Message),
}

/// The command `perms role <action> <player> <role>`. Of the actions only
/// `add` is carried out: a role cannot be taken from a player.
pub struct PermsRoleCommand;

impl PermsRoleCommand {
    /// What the command does with `role_action`: it grants on `add`, and
    /// refuses every other action, `remove` too, with a message that has no
    /// colour.
    pub fn request(&self, role_action: &str) -> (request: RoleRequest)
        ensures
            match request {
                RoleRequest::Grant => role_action@ == ADD_ACTION@,
                RoleRequest::Refuse(message) => {
                    &&& role_action@ != ADD_ACTION@
                    &&& message@ == (MessageView { text: INVALID_ROLE_ACTION@, colour: None })
                },
            },
    {
        if str_equal(role_action, ADD_ACTION) {
            RoleRequest::Grant
        } else {
            RoleRequest::Refuse(Message { text: INVALID_ROLE_ACTION.to_owned(), colour: None })
        }
    }

    /// The answer once the store was asked to link the player named
    /// `player_name` to `role`: a report of the grant, or a report of the
    /// failure where the store failed.
    pub fn execute(
        &self,
        role: &str,
        player_name: &str,
        outcome: Result<(), PermsError>,
    ) -> (message: Message)
        ensures
            message@ == match outcome {
                Ok(_) => grant_report(ADDED_ROLE@, role@, player_name@),
                Err(_) => failure_report(ADD_ROLE_FAILED@),
            },
    {
        match outcome {
            Ok(_) => report_grant(ADDED_ROLE, role, player_name),
            Err(_) => report_failure(ADD_ROLE_FAILED),
        }
    }
}

/// The command `perms info <player>`, which shows what a player holds.
pub struct PermsInfoCommand;

impl PermsInfoCommand {
    /// The answer once the store was asked what the player named
    /// `player_name` holds: a header, the roles and the direct permissions,
    /// each list in the order of the store, with `None` for an empty list; or
    /// one message of failure where the store failed.
    pub fn execute(
        &self,
        player_name: &str,
        fetched: &Result<PlayerPermissions, PermsError>,
    ) -> (messages: Vec<Message>)
        ensures
            message_views(messages@) == match fetched {
                Ok(held) => info_lines(player_name@, held@.roles, held@.direct_permissions),
                Err(_) => seq![failure_report(INFO_FAILED@)],
            },
    {
        let mut messages: Vec<Message> = Vec::new();
        match fetched {
            Ok(held) => {
                let mut header = HEADER_OPEN.to_owned();
                header.append(player_name);
                header.append(HEADER_CLOSE);
                messages.push(Message { text: header, colour: Some(success_colour()) });
                messages.push(list_line(ROLES_LABEL, &held.roles));
                messages.push(list_line(DIRECT_LABEL, &held.direct_permissions));
                assert(message_views(messages@) =~= info_lines(
                    player_name@,
                    held@.roles,
                    held@.direct_permissions,
                ));
            },
            Err(_) => {
                messages.push(report_failure(INFO_FAILED));
                assert(message_views(messages@) =~= seq![failure_report(INFO_FAILED@)]);
            },
        }
        messages
    }
}

/// The command that only tells how `perms` is used.
pub struct PermsExecutor;

impl PermsExecutor {
    /// The answer: the usage line, without a colour.
    pub fn execute(&self) -> (message: Message)
        ensures
            message@ == (MessageView { text: USAGE@, colour: None }),
    {
        Message { text: USAGE.to_owned(), colour: None }
    }
}

/// The command `ping`, which tests whether the plugin answers.
pub struct PingExecutor;

impl PingExecutor {
    /// The answer: `Pong!`, without a colour.
    pub fn execute(&self) -> (message: Message)
        ensures
            message@ == (MessageView { text: PONG@, colour: None }),
    {
        Message { text: PONG.to_owned(), colour: None }
    }
}

} // verus!
