//! Panel service rules: name and label validation, the per-panel role
//! ceiling, rename-conflict detection, cross-guild access denial, and the
//! guards around posting.
use vstd::prelude::*;

use crate::error::AppError;
use crate::model::Panel;
use crate::model::PanelRole;
use crate::text::trim;
use crate::text::trim_spec;

verus! {

/// A panel never holds more roles than a select menu can offer.
pub const MAX_ROLES_PER_PANEL: usize = 25;

/// Validates a panel name: trimmed, it must be non-empty and at most 100
/// characters.  Returns the trimmed name.
pub fn validate_panel_name(name: &str) -> (r: Result<String, AppError>)
    ensures
        match r {
            Ok(trimmed) => trimmed@ == trim_spec(name@) && 0 < trimmed@.len() <= 100,
            Err(e) => (trim_spec(name@).len() == 0 || trim_spec(name@).len() > 100) && e
                is InvalidInput,
        },
{
    let trimmed = trim(name);
    if trimmed.as_str().unicode_len() == 0 {
        Err(AppError::InvalidInput(String::from_str("Panel name cannot be empty.")))
    } else if trimmed.as_str().unicode_len() > 100 {
        Err(AppError::InvalidInput(String::from_str("Panel name must be 100 characters or less.")))
    } else {
        Ok(trimmed)
    }
}

/// Validates a role label: trimmed, it must be non-empty and at most 80
/// characters.  Returns the trimmed label.
pub fn validate_role_label(label: &str) -> (r: Result<String, AppError>)
    ensures
        match r {
            Ok(trimmed) => trimmed@ == trim_spec(label@) && 0 < trimmed@.len() <= 80,
            Err(e) => (trim_spec(label@).len() == 0 || trim_spec(label@).len() > 80) && e
                is InvalidInput,
        },
{
    let trimmed = trim(label);
    if trimmed.as_str().unicode_len() == 0 {
        Err(AppError::InvalidInput(String::from_str("Role label cannot be empty.")))
    } else if trimmed.as_str().unicode_len() > 80 {
        Err(AppError::InvalidInput(String::from_str("Role label must be 80 characters or less.")))
    } else {
        Ok(trimmed)
    }
}

/// The role ceiling: adding to a panel that already holds 25 roles fails
/// with `LimitExceeded`, and only then.
pub fn check_role_capacity(count: i64) -> (r: Result<(), AppError>)
    ensures
        count >= MAX_ROLES_PER_PANEL as i64 ==> (r matches Err(e) && e matches AppError::LimitExceeded(
            res,
        ) && res@ == "Role"@),
        count < MAX_ROLES_PER_PANEL as i64 ==> r is Ok,
{
    if count >= MAX_ROLES_PER_PANEL as i64 {
        Err(AppError::LimitExceeded("Role"))
    } else {
        Ok(())
    }
}

/// The position a newly added role receives: one past the current maximum,
/// so positions grow monotonically in insertion order.
pub fn next_position(max_position: i32) -> (r: i32)
    requires
        max_position < i32::MAX,
    ensures
        r == max_position + 1,
{
    max_position + 1
}

/// Creation fails with `NameExists` exactly when the guild already has a
/// panel under the name.
pub fn check_create_name_free(name_taken: bool) -> (r: Result<(), AppError>)
    ensures
        name_taken <==> (r matches Err(e) && e is NameExists),
        !name_taken <==> r is Ok,
{
    if name_taken {
        Err(AppError::NameExists)
    } else {
        Ok(())
    }
}

/// Renaming fails with `NameExists` exactly when another panel of the
/// guild (not the one being renamed) already carries the name.
pub fn check_rename_conflict(
    name_taken: bool,
    existing_id: Option<u128>,
    panel_id: u128,
) -> (r: Result<(), AppError>)
    ensures
        (name_taken && existing_id is Some && existing_id.unwrap() != panel_id) <==> (r matches Err(
            e,
        ) && e is NameExists),
        r is Err ==> (r matches Err(e) && e is NameExists),
{
    if name_taken {
        match existing_id {
            Some(id) => if id != panel_id {
                Err(AppError::NameExists)
            } else {
                Ok(())
            },
            None => Ok(()),
        }
    } else {
        Ok(())
    }
}

/// Cross-guild access denial: a looked-up panel is handed out only when it
/// exists and belongs to the requesting guild; otherwise the requester
/// learns no more than `NotFound`.
pub fn resolve_panel_for_guild(panel: Option<Panel>, guild_id: i64) -> (r: Result<Panel, AppError>)
    ensures
        match panel {
            Some(p) => if p.guild_id == guild_id {
                r matches Ok(q) && q == p
            } else {
                r matches Err(e) && e matches AppError::NotFound(res) && res@ == "Panel"@
            },
            None => r matches Err(e) && e matches AppError::NotFound(res) && res@ == "Panel"@,
        },
{
    match panel {
        Some(p) => if p.guild_id == guild_id {
            Ok(p)
        } else {
            Err(AppError::NotFound("Panel"))
        },
        None => Err(AppError::NotFound("Panel")),
    }
}

/// A panel can only be posted once it offers at least one role.
pub fn check_postable(role_count: usize) -> (r: Result<(), AppError>)
    ensures
        role_count == 0 <==> (r matches Err(e) && e matches AppError::InvalidInput(m) && m@
            == "Cannot post panel with no roles."@),
        role_count > 0 <==> r is Ok,
{
    if role_count == 0 {
        Err(AppError::InvalidInput(String::from_str("Cannot post panel with no roles.")))
    } else {
        Ok(())
    }
}

/// The platform role ids of a panel's role rows, in position order.
pub fn panel_role_ids(roles: &Vec<PanelRole>) -> (out: Vec<u64>)
    ensures
        out@.len() == roles@.len(),
        forall|i: int| 0 <= i < roles@.len() ==> out@[i] == #[trigger] roles@[i].role_id as u64,
{
    let mut out: Vec<u64> = Vec::new();
    let mut i: usize = 0;
    while i < roles.len()
        invariant
            i <= roles@.len(),
            out@.len() == i,
            forall|j: int| 0 <= j < i ==> out@[j] == #[trigger] roles@[j].role_id as u64,
        decreases roles@.len() - i,
    {
        out.push(roles[i].role_id as u64);
        i = i + 1;
    }
    out
}

} // verus!
