//! Panel edit wizard: the flat state machine behind the in-place editing
//! message.  Each decoded action, together with the panel's current data,
//! determines the next rendered view and which mutation to commit before
//! re-rendering; no transition shows an uncommitted view.
use vstd::prelude::*;

use crate::error::AppError;
use crate::model::PanelStyle;
use crate::panels::MAX_ROLES_PER_PANEL;
use crate::router::PanelAction;
use crate::text::parse_u64_spec;
use crate::text::parse_hex_i32_spec;
use crate::text::parse_u64;
use crate::text::parse_hex_i32;

verus! {

/// The view a wizard transition renders next.
#[derive(Debug, Clone, Copy, PartialEq, Eq, Structural)]
pub enum WizardView {
    EditHome,
    RoleAddPicker,
    RoleRemovePicker,
    ColorPicker,
    CustomColorModal,
    PreviewShown,
    ChannelPicker { page: u64 },
    DeleteConfirm,
    Deleted,
}

/// The mutation a transition commits before the next view is rendered.
#[derive(Debug, Clone, Copy, PartialEq, Eq, Structural)]
pub enum WizardEffect {
    NoEffect,
    CommitAddRoles,
    CommitRemoveRoles,
    CommitStyleToggle,
    CommitColor,
    CommitCustomColor,
    CommitPost,
    CommitDelete,
}

/// One step of the wizard.  Guards: adding is unreachable once the panel
/// holds 25 roles (a further attempt fails with `LimitExceeded`), and
/// removing, previewing and posting are unreachable with no roles.
pub fn wizard_transition(action: PanelAction, role_count: usize) -> (r: Result<
    (WizardView, WizardEffect),
    AppError,
>)
    ensures
        match action {
            PanelAction::AddRole => if role_count >= MAX_ROLES_PER_PANEL {
                r matches Err(e) && e matches AppError::LimitExceeded(res) && res@ == "Role"@
            } else {
                r == Ok::<_, AppError>((WizardView::RoleAddPicker, WizardEffect::NoEffect))
            },
            PanelAction::RoleAddSelect => r == Ok::<_, AppError>(
                (WizardView::EditHome, WizardEffect::CommitAddRoles),
            ),
            PanelAction::RemoveRole => if role_count == 0 {
                r matches Err(e) && e is InvalidInput
            } else {
                r == Ok::<_, AppError>((WizardView::RoleRemovePicker, WizardEffect::NoEffect))
            },
            PanelAction::RoleRemoveSelect => r == Ok::<_, AppError>(
                (WizardView::EditHome, WizardEffect::CommitRemoveRoles),
            ),
            PanelAction::Style => r == Ok::<_, AppError>(
                (WizardView::EditHome, WizardEffect::CommitStyleToggle),
            ),
            PanelAction::Color => r == Ok::<_, AppError>(
                (WizardView::ColorPicker, WizardEffect::NoEffect),
            ),
            PanelAction::ColorSelect => r == Ok::<_, AppError>(
                (WizardView::EditHome, WizardEffect::CommitColor),
            ),
            PanelAction::CustomColor => r == Ok::<_, AppError>(
                (WizardView::EditHome, WizardEffect::CommitCustomColor),
            ),
            PanelAction::Preview => if role_count == 0 {
                r matches Err(e) && e is InvalidInput
            } else {
                r == Ok::<_, AppError>((WizardView::PreviewShown, WizardEffect::NoEffect))
            },
            PanelAction::BackToEdit => r == Ok::<_, AppError>(
                (WizardView::EditHome, WizardEffect::NoEffect),
            ),
            PanelAction::Post => if role_count == 0 {
                r matches Err(e) && e is InvalidInput
            } else {
                r == Ok::<_, AppError>(
                    (WizardView::ChannelPicker { page: 0 }, WizardEffect::NoEffect),
                )
            },
            PanelAction::ChannelSelect => r == Ok::<_, AppError>(
                (WizardView::EditHome, WizardEffect::CommitPost),
            ),
            PanelAction::ChannelPage(page) => r == Ok::<_, AppError>(
                (WizardView::ChannelPicker { page }, WizardEffect::NoEffect),
            ),
            PanelAction::Delete => r == Ok::<_, AppError>(
                (WizardView::DeleteConfirm, WizardEffect::NoEffect),
            ),
            PanelAction::DeleteConfirm => r == Ok::<_, AppError>(
                (WizardView::Deleted, WizardEffect::CommitDelete),
            ),
            PanelAction::DeleteCancel => r == Ok::<_, AppError>(
                (WizardView::EditHome, WizardEffect::NoEffect),
            ),
            PanelAction::Back => r == Ok::<_, AppError>(
                (WizardView::EditHome, WizardEffect::NoEffect),
            ),
            PanelAction::RoleLabel(_) => r == Ok::<_, AppError>(
                (WizardView::EditHome, WizardEffect::CommitAddRoles),
            ),
        },
{
    match action {
        PanelAction::AddRole => {
            if role_count >= MAX_ROLES_PER_PANEL {
                Err(AppError::LimitExceeded("Role"))
            } else {
                Ok((WizardView::RoleAddPicker, WizardEffect::NoEffect))
            }
        },
        PanelAction::RoleAddSelect => Ok((WizardView::EditHome, WizardEffect::CommitAddRoles)),
        PanelAction::RemoveRole => {
            if role_count == 0 {
                Err(AppError::InvalidInput(String::from_str("削除するロールがありません。")))
            } else {
                Ok((WizardView::RoleRemovePicker, WizardEffect::NoEffect))
            }
        },
        PanelAction::RoleRemoveSelect => Ok(
            (WizardView::EditHome, WizardEffect::CommitRemoveRoles),
        ),
        PanelAction::Style => Ok((WizardView::EditHome, WizardEffect::CommitStyleToggle)),
        PanelAction::Color => Ok((WizardView::ColorPicker, WizardEffect::NoEffect)),
        PanelAction::ColorSelect => Ok((WizardView::EditHome, WizardEffect::CommitColor)),
        PanelAction::CustomColor => Ok((WizardView::EditHome, WizardEffect::CommitCustomColor)),
        PanelAction::Preview => {
            if role_count == 0 {
                Err(
                    AppError::InvalidInput(
                        String::from_str("Preview するにはロールを追加してください。"),
                    ),
                )
            } else {
                Ok((WizardView::PreviewShown, WizardEffect::NoEffect))
            }
        },
        PanelAction::BackToEdit => Ok((WizardView::EditHome, WizardEffect::NoEffect)),
        PanelAction::Post => {
            if role_count == 0 {
                Err(AppError::InvalidInput(String::from_str("Cannot post panel with no roles.")))
            } else {
                Ok((WizardView::ChannelPicker { page: 0 }, WizardEffect::NoEffect))
            }
        },
        PanelAction::ChannelSelect => Ok((WizardView::EditHome, WizardEffect::CommitPost)),
        PanelAction::ChannelPage(page) => Ok(
            (WizardView::ChannelPicker { page }, WizardEffect::NoEffect),
        ),
        PanelAction::Delete => Ok((WizardView::DeleteConfirm, WizardEffect::NoEffect)),
        PanelAction::DeleteConfirm => Ok((WizardView::Deleted, WizardEffect::CommitDelete)),
        PanelAction::DeleteCancel => Ok((WizardView::EditHome, WizardEffect::NoEffect)),
        PanelAction::Back => Ok((WizardView::EditHome, WizardEffect::NoEffect)),
        PanelAction::RoleLabel(_) => Ok((WizardView::EditHome, WizardEffect::CommitAddRoles)),
    }
}

/// The enabled state of the edit-home controls.
#[derive(Debug, Clone, Copy, PartialEq, Eq, Structural)]
pub struct EditHomeControls {
    pub add_role_disabled: bool,
    pub remove_role_disabled: bool,
    pub post_disabled: bool,
    pub post_label_is_update: bool,
    pub style_is_select_menu: bool,
}

/// Which edit-home controls are live: adding is disabled at the 25-role
/// ceiling; removing and posting are disabled with no roles; the post
/// button reads "update" once the panel is posted.
pub fn edit_home_controls(style: PanelStyle, is_posted: bool, role_count: usize) -> (c:
    EditHomeControls)
    ensures
        c.add_role_disabled == (role_count >= MAX_ROLES_PER_PANEL),
        c.remove_role_disabled == (role_count == 0),
        c.post_disabled == (role_count == 0),
        c.post_label_is_update == is_posted,
        c.style_is_select_menu == (style is SelectMenu),
{
    EditHomeControls {
        add_role_disabled: role_count >= MAX_ROLES_PER_PANEL,
        remove_role_disabled: role_count == 0,
        post_disabled: role_count == 0,
        post_label_is_update: is_posted,
        style_is_select_menu: match style {
            PanelStyle::SelectMenu => true,
            PanelStyle::Button => false,
        },
    }
}

/// The outcome of a pick in the color menu.
#[derive(Debug, Clone, Copy, PartialEq, Eq, Structural)]
pub enum ColorChoice {
    /// The custom option: open the custom-color modal.
    Custom,
    /// A fixed palette color.
    Fixed(i32),
}

/// Decodes a color-menu value: the word `custom` opens the modal, anything
/// else must be a decimal 24-bit-range color.
pub fn color_choice(value: &str) -> (r: Result<ColorChoice, AppError>)
    ensures
        value@ == "custom"@ ==> r == Ok::<_, AppError>(ColorChoice::Custom),
        value@ != "custom"@ ==> match parse_u64_spec(value@) {
            Some(c) => if c <= i32::MAX {
                r == Ok::<_, AppError>(ColorChoice::Fixed(c as i32))
            } else {
                r matches Err(e) && e is InvalidInput
            },
            None => r matches Err(e) && e is InvalidInput,
        },
{
    if crate::model::str_eq(value, "custom") {
        return Ok(ColorChoice::Custom);
    }
    match parse_u64(value) {
        Some(c) => {
            if c <= i32::MAX as u64 {
                Ok(ColorChoice::Fixed(c as i32))
            } else {
                Err(AppError::InvalidInput(String::from_str("無効なカラーです")))
            }
        },
        None => Err(AppError::InvalidInput(String::from_str("無効なカラーです"))),
    }
}

/// A hex color string with any leading `#` marks removed.
pub open spec fn strip_hashes(s: Seq<char>) -> Seq<char>
    decreases s.len(),
{
    if s.len() > 0 && s[0] == '#' {
        strip_hashes(s.drop_first())
    } else {
        s
    }
}

/// Decodes the custom-color modal input: an optional `#`, then hex digits
/// up to `i32::MAX`.
pub fn parse_custom_color(input: &str) -> (r: Result<i32, AppError>)
    ensures
        match parse_hex_i32_spec(strip_hashes(input@)) {
            Some(c) => r == Ok::<_, AppError>(c),
            None => r matches Err(e) && e matches AppError::InvalidInput(m) && m@
                == "Invalid hex color"@,
        },
{
    let n = input.unicode_len();
    let mut start: usize = 0;
    proof {
        assert(input@.subrange(0, n as int) =~= input@);
    }
    while start < n && input.get_char(start) == '#'
        invariant
            n == input@.len(),
            start <= n,
            strip_hashes(input@) == strip_hashes(input@.subrange(start as int, n as int)),
        decreases n - start,
    {
        proof {
            let rest = input@.subrange(start as int, n as int);
            assert(rest[0] == input@[start as int]);
            assert(rest.drop_first() =~= input@.subrange(start + 1, n as int));
        }
        start = start + 1;
    }
    let hex = input.substring_char(start, n);
    proof {
        let rest = input@.subrange(start as int, n as int);
        if rest.len() > 0 {
            assert(rest[0] == input@[start as int]);
        }
        assert(strip_hashes(rest) == rest);
    }
    match parse_hex_i32(hex) {
        Some(c) => Ok(c),
        None => Err(AppError::InvalidInput(String::from_str("Invalid hex color"))),
    }
}

/// One page of the channel picker, with its navigation controls.
#[derive(Debug, Clone, Copy, PartialEq, Eq, Structural)]
pub struct ChannelPageView {
    /// The page actually shown, clamped to the last page.
    pub page: usize,
    /// Index of the first entry shown.
    pub start: usize,
    /// One past the index of the last entry shown.
    pub end: usize,
    pub total_pages: usize,
    /// Navigation renders only when there is more than one page.
    pub show_nav: bool,
    pub prev_disabled: bool,
    pub next_disabled: bool,
}

/// Pages of 25 options.
pub const CHANNEL_PAGE_SIZE: usize = 25;

/// Computes the slice of channels one picker page shows and which
/// navigation buttons are live: the boundary buttons are disabled at the
/// first and last page, and a page never shows more than 25 entries.
pub fn channel_page_view(n_channels: usize, requested_page: usize) -> (v: ChannelPageView)
    ensures
        n_channels == 0 ==> v.start == 0 && v.end == 0 && v.total_pages == 0 && !v.show_nav,
        n_channels > 0 ==> {
            &&& v.total_pages == (n_channels + CHANNEL_PAGE_SIZE - 1) as int / CHANNEL_PAGE_SIZE as int
            &&& v.page == if requested_page < v.total_pages {
                requested_page as int
            } else {
                v.total_pages - 1
            }
            &&& v.start == v.page * CHANNEL_PAGE_SIZE
            &&& v.end == if v.start + CHANNEL_PAGE_SIZE <= n_channels {
                v.start + CHANNEL_PAGE_SIZE as int
            } else {
                n_channels as int
            }
            &&& v.start < v.end <= n_channels
            &&& v.end - v.start <= CHANNEL_PAGE_SIZE
            &&& v.show_nav == (v.total_pages > 1)
            &&& v.prev_disabled == (v.page == 0)
            &&& v.next_disabled == (v.page + 1 >= v.total_pages)
        },
{
    if n_channels == 0 {
        return ChannelPageView {
            page: 0,
            start: 0,
            end: 0,
            total_pages: 0,
            show_nav: false,
            prev_disabled: true,
            next_disabled: true,
        };
    }
    let total_pages = (n_channels - 1) / CHANNEL_PAGE_SIZE + 1;
    proof {
        assert(total_pages == ((n_channels + CHANNEL_PAGE_SIZE - 1) as int / CHANNEL_PAGE_SIZE as int))
            by (nonlinear_arith)
            requires
                n_channels >= 1,
                CHANNEL_PAGE_SIZE == 25,
                total_pages == (n_channels - 1) as int / 25 + 1,
        ;
    }
    let page = if requested_page < total_pages {
        requested_page
    } else {
        total_pages - 1
    };
    proof {
        assert(page * 25 <= n_channels - 1) by (nonlinear_arith)
            requires
                n_channels >= 1,
                page <= (n_channels - 1) as int / 25,
        ;
    }
    let start = page * CHANNEL_PAGE_SIZE;
    let end = if n_channels - start > CHANNEL_PAGE_SIZE {
        start + CHANNEL_PAGE_SIZE
    } else {
        n_channels
    };
    ChannelPageView {
        page,
        start,
        end,
        total_pages,
        show_nav: total_pages > 1,
        prev_disabled: page == 0,
        next_disabled: page + 1 >= total_pages,
    }
}

/// How many values a role select menu may take at once: the number of
/// options, capped at the platform ceiling of 25.
pub fn select_menu_max_values(n_options: usize) -> (r: u8)
    ensures
        r == if n_options < 25 {
            n_options as int
        } else {
            25int
        },
{
    if n_options < 25 {
        n_options as u8
    } else {
        25
    }
}

} // verus!
