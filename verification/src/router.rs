//! Action router: decodes the opaque, colon-delimited identifier attached
//! to a UI component into a typed action.
//!
//! Two identifier families exist.  `panel:<id>:<action>[:<extra>]` carries
//! the moderator edit actions of the wizard; `role:<id>:...` carries the
//! end-user self-assignment actions on a posted panel.  In the `role:`
//! family a fourth token equal to `toggle` marks the button path, whose
//! third token is a role id; otherwise the third token is the action name.
use vstd::prelude::*;

use crate::error::AppError;
use crate::ids::uuid_parse;
use crate::ids::uuid_parse_spec;
use crate::ids::uuid_str_spec;
use crate::ids::uuid_to_string;
use crate::model::str_eq;
use crate::text::dec_str;
use crate::text::lemma_dec_str_digits;
use crate::text::lemma_dec_str_len_u64;
use crate::text::lemma_parse_dec_str;
use crate::text::lemma_split_id3;
use crate::text::lemma_split_two;
use crate::text::lemma_split_whole;
use crate::text::no_colon;
use crate::text::parse_u64;
use crate::text::parse_u64_spec;
use crate::text::split_colons;
use crate::text::split_colons_spec;
use crate::text::u64_to_string;

verus! {

/// A moderator edit action on one panel.
#[derive(Debug, Clone, Copy, PartialEq, Eq, Structural)]
pub enum PanelAction {
    AddRole,
    RoleAddSelect,
    RemoveRole,
    RoleRemoveSelect,
    Style,
    Color,
    ColorSelect,
    CustomColor,
    Preview,
    BackToEdit,
    Post,
    ChannelSelect,
    ChannelPage(u64),
    Delete,
    DeleteConfirm,
    DeleteCancel,
    Back,
    RoleLabel(u64),
}

/// An end-user self-assignment action on a posted panel.
#[derive(Debug, Clone, Copy, PartialEq, Eq, Structural)]
pub enum RoleAction {
    Toggle(u64),
    Select,
    Confirm,
}

/// The decoded form of a component identifier.
#[derive(Debug, Clone, Copy, PartialEq, Eq, Structural)]
pub enum RoutedAction {
    /// Submission of the panel-creation modal.
    PanelCreate,
    Panel { panel_id: u128, action: PanelAction },
    Role { panel_id: u128, action: RoleAction },
}

/// Which edit action the third token (and, for paged or per-role actions,
/// the fourth token) of a `panel:` identifier denotes.
pub open spec fn panel_action_spec(parts: Seq<Seq<char>>) -> Option<PanelAction>
    recommends
        parts.len() >= 3,
{
    let a = parts[2];
    if a == "add_role"@ {
        Some(PanelAction::AddRole)
    } else if a == "role_add_select"@ {
        Some(PanelAction::RoleAddSelect)
    } else if a == "remove_role"@ {
        Some(PanelAction::RemoveRole)
    } else if a == "role_remove_select"@ {
        Some(PanelAction::RoleRemoveSelect)
    } else if a == "style"@ {
        Some(PanelAction::Style)
    } else if a == "color"@ {
        Some(PanelAction::Color)
    } else if a == "color_select"@ {
        Some(PanelAction::ColorSelect)
    } else if a == "custom_color"@ {
        Some(PanelAction::CustomColor)
    } else if a == "preview"@ {
        Some(PanelAction::Preview)
    } else if a == "back_to_edit"@ {
        Some(PanelAction::BackToEdit)
    } else if a == "post"@ {
        Some(PanelAction::Post)
    } else if a == "channel_select"@ {
        Some(PanelAction::ChannelSelect)
    } else if a == "channel_page"@ {
        if parts.len() >= 4 {
            match parse_u64_spec(parts[3]) {
                Some(page) => Some(PanelAction::ChannelPage(page)),
                None => None,
            }
        } else {
            None
        }
    } else if a == "role_label"@ {
        if parts.len() >= 4 {
            match parse_u64_spec(parts[3]) {
                Some(role_id) => Some(PanelAction::RoleLabel(role_id)),
                None => None,
            }
        } else {
            None
        }
    } else if a == "delete"@ {
        Some(PanelAction::Delete)
    } else if a == "delete_confirm"@ {
        Some(PanelAction::DeleteConfirm)
    } else if a == "delete_cancel"@ {
        Some(PanelAction::DeleteCancel)
    } else if a == "back"@ {
        Some(PanelAction::Back)
    } else {
        None
    }
}

/// Which self-assignment action a `role:` identifier denotes.  A fourth
/// token equal to `toggle` selects the button path and makes the third
/// token a role id; otherwise the third token names the menu-path action.
pub open spec fn role_action_spec(parts: Seq<Seq<char>>) -> Option<RoleAction>
    recommends
        parts.len() >= 3,
{
    if parts.len() >= 4 && parts[3] == "toggle"@ {
        match parse_u64_spec(parts[2]) {
            Some(role_id) => Some(RoleAction::Toggle(role_id)),
            None => None,
        }
    } else if parts[2] == "select"@ {
        Some(RoleAction::Select)
    } else if parts[2] == "confirm"@ {
        Some(RoleAction::Confirm)
    } else {
        None
    }
}

/// The action a component identifier denotes, or nothing when the
/// identifier is malformed: fewer than three tokens, an unknown family or
/// action name, or an id token that is not a UUID or integer.
pub open spec fn route_spec(s: Seq<char>) -> Option<RoutedAction> {
    if s == "panel:create:modal"@ {
        Some(RoutedAction::PanelCreate)
    } else {
        let parts = split_colons_spec(s);
        if parts.len() < 3 {
            None
        } else if parts[0] == "panel"@ {
            match uuid_parse_spec(parts[1]) {
                Some(panel_id) => match panel_action_spec(parts) {
                    Some(action) => Some(RoutedAction::Panel { panel_id, action }),
                    None => None,
                },
                None => None,
            }
        } else if parts[0] == "role"@ {
            match uuid_parse_spec(parts[1]) {
                Some(panel_id) => match role_action_spec(parts) {
                    Some(action) => Some(RoutedAction::Role { panel_id, action }),
                    None => None,
                },
                None => None,
            }
        } else {
            None
        }
    }
}

fn panel_action_of(parts: &Vec<String>) -> (r: Result<PanelAction, AppError>)
    requires
        parts@.len() >= 3,
    ensures
        panel_action_spec(parts.deep_view()) matches Some(a) ==> r == Ok::<PanelAction, AppError>(a),
        panel_action_spec(parts.deep_view()) is None ==> (r matches Err(e) && e is InvalidInput),
{
    let a = parts[2].as_str();
    if str_eq(a, "add_role") {
        Ok(PanelAction::AddRole)
    } else if str_eq(a, "role_add_select") {
        Ok(PanelAction::RoleAddSelect)
    } else if str_eq(a, "remove_role") {
        Ok(PanelAction::RemoveRole)
    } else if str_eq(a, "role_remove_select") {
        Ok(PanelAction::RoleRemoveSelect)
    } else if str_eq(a, "style") {
        Ok(PanelAction::Style)
    } else if str_eq(a, "color") {
        Ok(PanelAction::Color)
    } else if str_eq(a, "color_select") {
        Ok(PanelAction::ColorSelect)
    } else if str_eq(a, "custom_color") {
        Ok(PanelAction::CustomColor)
    } else if str_eq(a, "preview") {
        Ok(PanelAction::Preview)
    } else if str_eq(a, "back_to_edit") {
        Ok(PanelAction::BackToEdit)
    } else if str_eq(a, "post") {
        Ok(PanelAction::Post)
    } else if str_eq(a, "channel_select") {
        Ok(PanelAction::ChannelSelect)
    } else if str_eq(a, "channel_page") {
        if parts.len() >= 4 {
            match parse_u64(parts[3].as_str()) {
                Some(page) => Ok(PanelAction::ChannelPage(page)),
                None => Err(AppError::InvalidInput(String::from_str("Invalid page number"))),
            }
        } else {
            Err(AppError::InvalidInput(String::from_str("Invalid custom ID format")))
        }
    } else if str_eq(a, "role_label") {
        if parts.len() >= 4 {
            match parse_u64(parts[3].as_str()) {
                Some(role_id) => Ok(PanelAction::RoleLabel(role_id)),
                None => Err(AppError::InvalidInput(String::from_str("Invalid role ID"))),
            }
        } else {
            Err(AppError::InvalidInput(String::from_str("Invalid custom ID format")))
        }
    } else if str_eq(a, "delete") {
        Ok(PanelAction::Delete)
    } else if str_eq(a, "delete_confirm") {
        Ok(PanelAction::DeleteConfirm)
    } else if str_eq(a, "delete_cancel") {
        Ok(PanelAction::DeleteCancel)
    } else if str_eq(a, "back") {
        Ok(PanelAction::Back)
    } else {
        let mut msg = String::from_str("Unknown panel action: ");
        msg.append(a);
        Err(AppError::InvalidInput(msg))
    }
}

fn role_action_of(parts: &Vec<String>) -> (r: Result<RoleAction, AppError>)
    requires
        parts@.len() >= 3,
    ensures
        role_action_spec(parts.deep_view()) matches Some(a) ==> r == Ok::<RoleAction, AppError>(a),
        role_action_spec(parts.deep_view()) is None ==> (r matches Err(e) && e is InvalidInput),
{
    if parts.len() >= 4 && str_eq(parts[3].as_str(), "toggle") {
        match parse_u64(parts[2].as_str()) {
            Some(role_id) => Ok(RoleAction::Toggle(role_id)),
            None => Err(AppError::InvalidInput(String::from_str("無効なロールIDです"))),
        }
    } else if str_eq(parts[2].as_str(), "select") {
        Ok(RoleAction::Select)
    } else if str_eq(parts[2].as_str(), "confirm") {
        Ok(RoleAction::Confirm)
    } else {
        let mut msg = String::from_str("不明なロールアクションです: ");
        msg.append(parts[2].as_str());
        Err(AppError::InvalidInput(msg))
    }
}

/// The action part of a `panel:` identifier.
pub open spec fn panel_action_token(a: PanelAction) -> Seq<char> {
    match a {
        PanelAction::AddRole => "add_role"@,
        PanelAction::RoleAddSelect => "role_add_select"@,
        PanelAction::RemoveRole => "remove_role"@,
        PanelAction::RoleRemoveSelect => "role_remove_select"@,
        PanelAction::Style => "style"@,
        PanelAction::Color => "color"@,
        PanelAction::ColorSelect => "color_select"@,
        PanelAction::CustomColor => "custom_color"@,
        PanelAction::Preview => "preview"@,
        PanelAction::BackToEdit => "back_to_edit"@,
        PanelAction::Post => "post"@,
        PanelAction::ChannelSelect => "channel_select"@,
        PanelAction::ChannelPage(page) => "channel_page:"@ + dec_str(page as nat),
        PanelAction::Delete => "delete"@,
        PanelAction::DeleteConfirm => "delete_confirm"@,
        PanelAction::DeleteCancel => "delete_cancel"@,
        PanelAction::Back => "back"@,
        PanelAction::RoleLabel(role_id) => "role_label:"@ + dec_str(role_id as nat),
    }
}

/// Round trip: the router decodes every edit identifier the library
/// renders, back to exactly the rendered action.
#[verifier::rlimit(50)]
proof fn lemma_route_encoded_panel(u: Seq<char>, panel_id: u128, action: PanelAction)
    requires
        u.len() == 36,
        no_colon(u),
        uuid_parse_spec(u) == Some(panel_id),
    ensures
        route_spec("panel:"@ + u + ":"@ + panel_action_token(action)) == Some(
            RoutedAction::Panel { panel_id, action },
        ),
{
    reveal_strlit("panel");
    reveal_strlit("panel:");
    reveal_strlit("role");
    reveal_strlit("role:");
    reveal_strlit(":");
    reveal_strlit("panel:create:modal");
    reveal_strlit("add_role");
    reveal_strlit("role_add_select");
    reveal_strlit("remove_role");
    reveal_strlit("role_remove_select");
    reveal_strlit("style");
    reveal_strlit("color");
    reveal_strlit("color_select");
    reveal_strlit("custom_color");
    reveal_strlit("preview");
    reveal_strlit("back_to_edit");
    reveal_strlit("post");
    reveal_strlit("channel_select");
    reveal_strlit("channel_page");
    reveal_strlit("channel_page:");
    reveal_strlit("role_label");
    reveal_strlit("role_label:");
    reveal_strlit("delete");
    reveal_strlit("delete_confirm");
    reveal_strlit("delete_cancel");
    reveal_strlit("back");
    reveal_strlit("select");
    reveal_strlit(":select");
    reveal_strlit("confirm");
    reveal_strlit(":confirm");
    reveal_strlit("toggle");
    reveal_strlit(":toggle");
    let tok = panel_action_token(action);
    let s = "panel:"@ + u + ":"@ + tok;
    assert("panel:"@ =~= "panel"@ + seq![':']);
    assert(":"@ =~= seq![':']);
    assert(s =~= "panel"@ + seq![':'] + u + seq![':'] + tok);
    assert(no_colon("panel"@));
    lemma_split_id3("panel"@, u, tok);
    let parts = split_colons_spec(s);
    match action {
        PanelAction::ChannelPage(page) => {
            assert(tok =~= "channel_page"@ + seq![':'] + dec_str(page as nat));
            lemma_dec_str_digits(page as nat);
            assert(no_colon("channel_page"@));
            lemma_split_two("channel_page"@, dec_str(page as nat));
            assert(parts =~= seq!["panel"@, u, "channel_page"@, dec_str(page as nat)]);
            lemma_parse_dec_str(page);
        },
        PanelAction::RoleLabel(role_id) => {
            assert(tok =~= "role_label"@ + seq![':'] + dec_str(role_id as nat));
            lemma_dec_str_digits(role_id as nat);
            assert(no_colon("role_label"@));
            lemma_split_two("role_label"@, dec_str(role_id as nat));
            assert(parts =~= seq!["panel"@, u, "role_label"@, dec_str(role_id as nat)]);
            lemma_parse_dec_str(role_id);
        },
        _ => {
            assert(no_colon(tok));
            lemma_split_whole(tok);
            assert(parts =~= seq!["panel"@, u, tok]);
        },
    }
    assert(s.len() > "panel:create:modal"@.len());
    assert(panel_action_spec(parts) == Some(action));
}

/// Round trip for the toggle buttons of a posted panel.
proof fn lemma_route_encoded_toggle(u: Seq<char>, panel_id: u128, role_id: u64)
    requires
        u.len() == 36,
        no_colon(u),
        uuid_parse_spec(u) == Some(panel_id),
    ensures
        route_spec("role:"@ + u + ":"@ + dec_str(role_id as nat) + ":toggle"@) == Some(
            RoutedAction::Role { panel_id, action: RoleAction::Toggle(role_id) },
        ),
{
    reveal_strlit("panel");
    reveal_strlit("panel:");
    reveal_strlit("role");
    reveal_strlit("role:");
    reveal_strlit(":");
    reveal_strlit("panel:create:modal");
    reveal_strlit("add_role");
    reveal_strlit("role_add_select");
    reveal_strlit("remove_role");
    reveal_strlit("role_remove_select");
    reveal_strlit("style");
    reveal_strlit("color");
    reveal_strlit("color_select");
    reveal_strlit("custom_color");
    reveal_strlit("preview");
    reveal_strlit("back_to_edit");
    reveal_strlit("post");
    reveal_strlit("channel_select");
    reveal_strlit("channel_page");
    reveal_strlit("channel_page:");
    reveal_strlit("role_label");
    reveal_strlit("role_label:");
    reveal_strlit("delete");
    reveal_strlit("delete_confirm");
    reveal_strlit("delete_cancel");
    reveal_strlit("back");
    reveal_strlit("select");
    reveal_strlit(":select");
    reveal_strlit("confirm");
    reveal_strlit(":confirm");
    reveal_strlit("toggle");
    reveal_strlit(":toggle");
    let digits = dec_str(role_id as nat);
    let s = "role:"@ + u + ":"@ + digits + ":toggle"@;
    let tail = digits + seq![':'] + "toggle"@;
    assert("role:"@ =~= "role"@ + seq![':']);
    assert(":toggle"@ =~= seq![':'] + "toggle"@);
    assert(s =~= "role"@ + seq![':'] + u + seq![':'] + tail);
    assert(no_colon("role"@));
    lemma_split_id3("role"@, u, tail);
    lemma_dec_str_digits(role_id as nat);
    assert(no_colon("toggle"@));
    lemma_split_two(digits, "toggle"@);
    let parts = split_colons_spec(s);
    assert(parts =~= seq!["role"@, u, digits, "toggle"@]);
    lemma_parse_dec_str(role_id);
    assert(s.len() > "panel:create:modal"@.len());
    assert(role_action_spec(parts) == Some(RoleAction::Toggle(role_id)));
}

/// Round trip for the menu-path identifiers of a posted panel.
proof fn lemma_route_encoded_menu(u: Seq<char>, panel_id: u128, confirm: bool)
    requires
        u.len() == 36,
        no_colon(u),
        uuid_parse_spec(u) == Some(panel_id),
    ensures
        !confirm ==> route_spec("role:"@ + u + ":select"@) == Some(
            RoutedAction::Role { panel_id, action: RoleAction::Select },
        ),
        confirm ==> route_spec("role:"@ + u + ":confirm"@) == Some(
            RoutedAction::Role { panel_id, action: RoleAction::Confirm },
        ),
{
    reveal_strlit("panel");
    reveal_strlit("panel:");
    reveal_strlit("role");
    reveal_strlit("role:");
    reveal_strlit(":");
    reveal_strlit("panel:create:modal");
    reveal_strlit("add_role");
    reveal_strlit("role_add_select");
    reveal_strlit("remove_role");
    reveal_strlit("role_remove_select");
    reveal_strlit("style");
    reveal_strlit("color");
    reveal_strlit("color_select");
    reveal_strlit("custom_color");
    reveal_strlit("preview");
    reveal_strlit("back_to_edit");
    reveal_strlit("post");
    reveal_strlit("channel_select");
    reveal_strlit("channel_page");
    reveal_strlit("channel_page:");
    reveal_strlit("role_label");
    reveal_strlit("role_label:");
    reveal_strlit("delete");
    reveal_strlit("delete_confirm");
    reveal_strlit("delete_cancel");
    reveal_strlit("back");
    reveal_strlit("select");
    reveal_strlit(":select");
    reveal_strlit("confirm");
    reveal_strlit(":confirm");
    reveal_strlit("toggle");
    reveal_strlit(":toggle");
    if confirm {
        let s = "role:"@ + u + ":confirm"@;
        assert("role:"@ =~= "role"@ + seq![':']);
        assert(":confirm"@ =~= seq![':'] + "confirm"@);
        assert(s =~= "role"@ + seq![':'] + u + seq![':'] + "confirm"@);
        assert(no_colon("role"@));
        lemma_split_id3("role"@, u, "confirm"@);
        assert(no_colon("confirm"@));
        lemma_split_whole("confirm"@);
        let parts = split_colons_spec(s);
        assert(parts =~= seq!["role"@, u, "confirm"@]);
        assert(s.len() > "panel:create:modal"@.len());
        assert(role_action_spec(parts) == Some(RoleAction::Confirm));
    } else {
        let s = "role:"@ + u + ":select"@;
        assert("role:"@ =~= "role"@ + seq![':']);
        assert(":select"@ =~= seq![':'] + "select"@);
        assert(s =~= "role"@ + seq![':'] + u + seq![':'] + "select"@);
        assert(no_colon("role"@));
        lemma_split_id3("role"@, u, "select"@);
        assert(no_colon("select"@));
        lemma_split_whole("select"@);
        let parts = split_colons_spec(s);
        assert(parts =~= seq!["role"@, u, "select"@]);
        assert(s.len() > "panel:create:modal"@.len());
        assert(role_action_spec(parts) == Some(RoleAction::Select));
    }
}

/// Renders the identifier of a moderator edit action.  The result always
/// respects the platform's 100-character identifier limit, and the router
/// decodes it back to this very action on this very panel.
pub fn encode_panel_action(panel_id: u128, action: PanelAction) -> (r: String)
    ensures
        r@ == "panel:"@ + uuid_str_spec(panel_id) + ":"@ + panel_action_token(action),
        r@.len() <= 100,
        route_spec(r@) == Some(RoutedAction::Panel { panel_id, action }),
{
    proof {
        reveal_strlit("panel:");
        reveal_strlit(":");
        reveal_strlit("add_role");
        reveal_strlit("role_add_select");
        reveal_strlit("remove_role");
        reveal_strlit("role_remove_select");
        reveal_strlit("style");
        reveal_strlit("color");
        reveal_strlit("color_select");
        reveal_strlit("custom_color");
        reveal_strlit("preview");
        reveal_strlit("back_to_edit");
        reveal_strlit("post");
        reveal_strlit("channel_select");
        reveal_strlit("channel_page:");
        reveal_strlit("delete");
        reveal_strlit("delete_confirm");
        reveal_strlit("delete_cancel");
        reveal_strlit("back");
        reveal_strlit("role_label:");
    }
    let mut s = String::from_str("panel:");
    let rendered_id = uuid_to_string(panel_id);
    s.append(rendered_id.as_str());
    s.append(":");
    match action {
        PanelAction::AddRole => s.append("add_role"),
        PanelAction::RoleAddSelect => s.append("role_add_select"),
        PanelAction::RemoveRole => s.append("remove_role"),
        PanelAction::RoleRemoveSelect => s.append("role_remove_select"),
        PanelAction::Style => s.append("style"),
        PanelAction::Color => s.append("color"),
        PanelAction::ColorSelect => s.append("color_select"),
        PanelAction::CustomColor => s.append("custom_color"),
        PanelAction::Preview => s.append("preview"),
        PanelAction::BackToEdit => s.append("back_to_edit"),
        PanelAction::Post => s.append("post"),
        PanelAction::ChannelSelect => s.append("channel_select"),
        PanelAction::ChannelPage(page) => {
            s.append("channel_page:");
            let digits = u64_to_string(page);
            s.append(digits.as_str());
            proof {
                lemma_dec_str_len_u64(page);
            }
        },
        PanelAction::Delete => s.append("delete"),
        PanelAction::DeleteConfirm => s.append("delete_confirm"),
        PanelAction::DeleteCancel => s.append("delete_cancel"),
        PanelAction::Back => s.append("back"),
        PanelAction::RoleLabel(role_id) => {
            s.append("role_label:");
            let digits = u64_to_string(role_id);
            s.append(digits.as_str());
            proof {
                lemma_dec_str_len_u64(role_id);
            }
        },
    }
    proof {
        lemma_route_encoded_panel(rendered_id@, panel_id, action);
    }
    s
}

/// Renders the identifier of a role toggle button: always within the
/// platform's 100-character identifier limit, and decoded by the router
/// back to a toggle of this very role.
pub fn encode_role_toggle(panel_id: u128, role_id: u64) -> (r: String)
    ensures
        r@ == "role:"@ + uuid_str_spec(panel_id) + ":"@ + dec_str(role_id as nat) + ":toggle"@,
        r@.len() <= 100,
        route_spec(r@) == Some(
            RoutedAction::Role { panel_id, action: RoleAction::Toggle(role_id) },
        ),
{
    proof {
        reveal_strlit("role:");
        reveal_strlit(":");
        reveal_strlit(":toggle");
        lemma_dec_str_len_u64(role_id);
    }
    let mut s = String::from_str("role:");
    let rendered_id = uuid_to_string(panel_id);
    s.append(rendered_id.as_str());
    s.append(":");
    let digits = u64_to_string(role_id);
    s.append(digits.as_str());
    s.append(":toggle");
    proof {
        lemma_route_encoded_toggle(rendered_id@, panel_id, role_id);
    }
    s
}

/// Renders the identifier of the role select menu of a posted panel; the
/// router decodes it back to the menu path.
pub fn encode_role_select(panel_id: u128) -> (r: String)
    ensures
        r@ == "role:"@ + uuid_str_spec(panel_id) + ":select"@,
        r@.len() <= 100,
        route_spec(r@) == Some(RoutedAction::Role { panel_id, action: RoleAction::Select }),
{
    proof {
        reveal_strlit("role:");
        reveal_strlit(":select");
    }
    let mut s = String::from_str("role:");
    let rendered_id = uuid_to_string(panel_id);
    s.append(rendered_id.as_str());
    s.append(":select");
    proof {
        lemma_route_encoded_menu(rendered_id@, panel_id, false);
    }
    s
}

/// Renders the identifier of the confirm button of a posted panel; the
/// router decodes it back to the confirm path.
pub fn encode_role_confirm(panel_id: u128) -> (r: String)
    ensures
        r@ == "role:"@ + uuid_str_spec(panel_id) + ":confirm"@,
        r@.len() <= 100,
        route_spec(r@) == Some(RoutedAction::Role { panel_id, action: RoleAction::Confirm }),
{
    proof {
        reveal_strlit("role:");
        reveal_strlit(":confirm");
    }
    let mut s = String::from_str("role:");
    let rendered_id = uuid_to_string(panel_id);
    s.append(rendered_id.as_str());
    s.append(":confirm");
    proof {
        lemma_route_encoded_menu(rendered_id@, panel_id, true);
    }
    s
}

/// Decodes a component identifier.  Returns exactly the action that
/// [`route_spec`] assigns to the string, and an `InvalidInput` error on
/// every string to which it assigns none.
pub fn route_custom_id(custom_id: &str) -> (r: Result<RoutedAction, AppError>)
    ensures
        route_spec(custom_id@) matches Some(a) ==> r == Ok::<RoutedAction, AppError>(a),
        route_spec(custom_id@) is None ==> (r matches Err(e) && e is InvalidInput),
{
    if str_eq(custom_id, "panel:create:modal") {
        return Ok(RoutedAction::PanelCreate);
    }
    let parts = split_colons(custom_id);
    if parts.len() < 3 {
        return Err(AppError::InvalidInput(String::from_str("Invalid custom ID format")));
    }
    if str_eq(parts[0].as_str(), "panel") {
        match uuid_parse(parts[1].as_str()) {
            Some(panel_id) => match panel_action_of(&parts) {
                Ok(action) => Ok(RoutedAction::Panel { panel_id, action }),
                Err(e) => Err(e),
            },
            None => Err(AppError::InvalidInput(String::from_str("Invalid panel ID"))),
        }
    } else if str_eq(parts[0].as_str(), "role") {
        match uuid_parse(parts[1].as_str()) {
            Some(panel_id) => match role_action_of(&parts) {
                Ok(action) => Ok(RoutedAction::Role { panel_id, action }),
                Err(e) => Err(e),
            },
            None => Err(AppError::InvalidInput(String::from_str("無効なパネルIDです"))),
        }
    } else {
        Err(AppError::InvalidInput(String::from_str("Invalid custom ID format")))
    }
}

} // verus!
