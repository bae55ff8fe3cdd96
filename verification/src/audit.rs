//! Audit logger decisions: when a log is sent at all, to which channel,
//! and the exact text of the entry.  Delivery itself is best-effort and
//! never fails the user-facing role change.
use vstd::prelude::*;

use crate::model::GuildConfig;
use crate::roles::AppliedChange;
use crate::text::dec_str;
use crate::text::u64_to_string;

verus! {

/// The kind of role change an audit entry records.
#[derive(Debug, Clone, Copy, PartialEq, Eq, Structural)]
pub enum AuditAction {
    RoleAdded,
    RoleRemoved,
    RolesUpdated,
}

impl AuditAction {
    /// The embed title of this action.
    pub open spec fn spec_title(self) -> Seq<char> {
        match self {
            AuditAction::RoleAdded => "ロール付与"@,
            AuditAction::RoleRemoved => "ロール解除"@,
            AuditAction::RolesUpdated => "ロール更新"@,
        }
    }

    pub fn title(&self) -> (r: &'static str)
        ensures
            r@ == self.spec_title(),
    {
        match self {
            AuditAction::RoleAdded => "ロール付与",
            AuditAction::RoleRemoved => "ロール解除",
            AuditAction::RolesUpdated => "ロール更新",
        }
    }

    /// The embed color of this action.
    pub open spec fn spec_color(self) -> u32 {
        match self {
            AuditAction::RoleAdded => 0x57F287,
            AuditAction::RoleRemoved => 0xED4245,
            AuditAction::RolesUpdated => 0x5865F2,
        }
    }

    pub fn color(&self) -> (r: u32)
        ensures
            r == self.spec_color(),
    {
        match self {
            AuditAction::RoleAdded => 0x57F287,
            AuditAction::RoleRemoved => 0xED4245,
            AuditAction::RolesUpdated => 0x5865F2,
        }
    }
}

/// Where an audit entry goes: the guild's configured audit channel.  A
/// missing configuration row or an unset channel silently disables
/// auditing; neither is an error.
pub fn audit_channel(config: &Option<GuildConfig>) -> (r: Option<i64>)
    ensures
        r == match *config {
            Some(c) => c.audit_channel_id,
            None => None::<i64>,
        },
{
    match config {
        Some(c) => c.audit_channel_id,
        None => None,
    }
}

/// A sync entry is logged only when it changed something: with both lists
/// empty the logger is a no-op.
pub fn sync_log_needed(n_added: usize, n_removed: usize) -> (b: bool)
    ensures
        b == !(n_added == 0 && n_removed == 0),
{
    !(n_added == 0 && n_removed == 0)
}

/// The body of an audit entry: the acting member, the panel, and the
/// number of changes when there were any.
pub open spec fn audit_description_spec(user_id: u64, panel_name: Seq<char>, total: int) -> Seq<
    char,
> {
    let base = "**ユーザー**\n<@"@ + dec_str(user_id as nat) + "> (`"@ + dec_str(user_id as nat)
        + "`)\n\n**パネル**\n"@ + panel_name;
    if total > 0 {
        base + "\n\n**変更数:** "@ + dec_str(total as nat)
    } else {
        base
    }
}

/// Renders the body of an audit entry.
pub fn audit_description(user_id: u64, panel_name: &str, total_changes: u64) -> (r: String)
    ensures
        r@ == audit_description_spec(user_id, panel_name@, total_changes as int),
{
    let rendered_user = u64_to_string(user_id);
    let mut out = String::from_str("**ユーザー**\n<@");
    out.append(rendered_user.as_str());
    out.append("> (`");
    out.append(rendered_user.as_str());
    out.append("`)\n\n**パネル**\n");
    out.append(panel_name);
    if total_changes > 0 {
        let rendered_total = u64_to_string(total_changes);
        out.append("\n\n**変更数:** ");
        out.append(rendered_total.as_str());
    }
    out
}

/// One bullet line of an audit entry: the role mention and its label.
pub open spec fn role_line_spec(role_id: u64, label: Seq<char>) -> Seq<char> {
    "• <@&"@ + dec_str(role_id as nat) + "> `"@ + label + "`"@
}

/// The lines for the changes from index `i` on, joined by newlines.
pub open spec fn role_lines_from(entries: Seq<AppliedChange>, i: int) -> Seq<char>
    decreases entries.len() - i,
{
    if i < 0 || i >= entries.len() {
        Seq::empty()
    } else if i == entries.len() - 1 {
        role_line_spec(entries[i].role_id, entries[i].label@)
    } else {
        role_line_spec(entries[i].role_id, entries[i].label@) + "\n"@ + role_lines_from(
            entries,
            i + 1,
        )
    }
}

/// The field text listing a direction's changes, one line per role.
pub open spec fn role_lines_spec(entries: Seq<AppliedChange>) -> Seq<char> {
    role_lines_from(entries, 0)
}

fn role_line(change: &AppliedChange) -> (r: String)
    ensures
        r@ == role_line_spec(change.role_id, change.label@),
{
    let rendered = u64_to_string(change.role_id);
    let mut out = String::from_str("• <@&");
    out.append(rendered.as_str());
    out.append("> `");
    out.append(change.label.as_str());
    out.append("`");
    out
}

/// Renders the lines of a direction's changes, in input order.
pub fn role_lines(entries: &Vec<AppliedChange>) -> (r: String)
    ensures
        r@ == role_lines_spec(entries@),
{
    let n = entries.len();
    let mut acc = String::new();
    let mut i: usize = n;
    while i > 0
        invariant
            n == entries@.len(),
            i <= n,
            acc@ == role_lines_from(entries@, i as int),
        decreases i,
    {
        i = i - 1;
        let line = role_line(&entries[i]);
        if i == n - 1 {
            acc = line;
        } else {
            let mut next = line;
            next.append("\n");
            next.append(acc.as_str());
            acc = next;
        }
    }
    acc
}

/// The name of the field that lists one direction's changes, carrying the
/// count: additions or removals.
pub fn audit_field_name(added: bool, count: u64) -> (r: String)
    ensures
        added ==> r@ == "付与 ("@ + dec_str(count as nat) + ")"@,
        !added ==> r@ == "解除 ("@ + dec_str(count as nat) + ")"@,
{
    let mut out = if added {
        String::from_str("付与 (")
    } else {
        String::from_str("解除 (")
    };
    let rendered = u64_to_string(count);
    out.append(rendered.as_str());
    out.append(")");
    out
}

} // verus!
