use role_panel::error::AppError;
use role_panel::model::PanelStyle;
use role_panel::panels::check_postable;
use role_panel::panels::check_role_capacity;
use role_panel::panels::validate_role_label;
use role_panel::router::PanelAction;
use role_panel::wizard::ColorChoice;
use role_panel::wizard::WizardEffect;
use role_panel::wizard::WizardView;
use role_panel::wizard::channel_page_view;
use role_panel::wizard::color_choice;
use role_panel::wizard::edit_home_controls;
use role_panel::wizard::parse_custom_color;
use role_panel::wizard::select_menu_max_values;
use role_panel::wizard::wizard_transition;

#[test]
fn add_role_disabled_when_25_roles() {
    let c = edit_home_controls(PanelStyle::Button, false, 25);
    assert!(c.add_role_disabled, "Add Role should be disabled when 25 roles exist");
}

#[test]
fn add_role_enabled_when_less_than_25_roles() {
    let c = edit_home_controls(PanelStyle::Button, false, 1);
    assert!(!c.add_role_disabled, "Add Role should be enabled when < 25 roles");
}

#[test]
fn remove_role_disabled_when_no_roles() {
    let c = edit_home_controls(PanelStyle::Button, false, 0);
    assert!(c.remove_role_disabled, "Remove Role should be disabled when no roles");
}

#[test]
fn remove_role_enabled_when_roles_exist() {
    let c = edit_home_controls(PanelStyle::Button, false, 1);
    assert!(!c.remove_role_disabled, "Remove Role should be enabled when roles exist");
}

#[test]
fn post_button_disabled_when_no_roles() {
    let c = edit_home_controls(PanelStyle::Button, false, 0);
    assert!(c.post_disabled, "Post should be disabled when no roles");
}

#[test]
fn post_button_shows_update_when_posted() {
    let c = edit_home_controls(PanelStyle::Button, true, 1);
    assert!(c.post_label_is_update);
}

#[test]
fn post_button_shows_post_when_not_posted() {
    let c = edit_home_controls(PanelStyle::Button, false, 1);
    assert!(!c.post_label_is_update);
}

#[test]
fn style_button_shows_current_style() {
    let c = edit_home_controls(PanelStyle::SelectMenu, false, 1);
    assert!(c.style_is_select_menu);
    let c = edit_home_controls(PanelStyle::Button, false, 1);
    assert!(!c.style_is_select_menu);
}

#[test]
fn a_26th_add_returns_limit_exceeded() {
    // the transition refuses at the ceiling...
    let r = wizard_transition(PanelAction::AddRole, 25);
    assert!(matches!(r, Err(AppError::LimitExceeded("Role"))));
    // ...and so does the service-level capacity check
    let r = check_role_capacity(25);
    assert!(matches!(r, Err(AppError::LimitExceeded("Role"))));
    assert!(check_role_capacity(24).is_ok());
}

#[test]
fn remove_preview_post_unreachable_at_zero_roles() {
    assert!(wizard_transition(PanelAction::RemoveRole, 0).is_err());
    assert!(wizard_transition(PanelAction::Preview, 0).is_err());
    assert!(wizard_transition(PanelAction::Post, 0).is_err());
    assert!(matches!(check_postable(0), Err(AppError::InvalidInput(_))));
    assert!(check_postable(1).is_ok());
}

#[test]
fn wizard_navigation_returns_to_edit_home() {
    assert_eq!(
        wizard_transition(PanelAction::Back, 1).unwrap(),
        (WizardView::EditHome, WizardEffect::NoEffect)
    );
    assert_eq!(
        wizard_transition(PanelAction::BackToEdit, 1).unwrap(),
        (WizardView::EditHome, WizardEffect::NoEffect)
    );
    assert_eq!(
        wizard_transition(PanelAction::DeleteCancel, 1).unwrap(),
        (WizardView::EditHome, WizardEffect::NoEffect)
    );
}

#[test]
fn wizard_mutating_transitions_commit_before_edit_home() {
    assert_eq!(
        wizard_transition(PanelAction::Style, 1).unwrap(),
        (WizardView::EditHome, WizardEffect::CommitStyleToggle)
    );
    assert_eq!(
        wizard_transition(PanelAction::RoleAddSelect, 1).unwrap(),
        (WizardView::EditHome, WizardEffect::CommitAddRoles)
    );
    assert_eq!(
        wizard_transition(PanelAction::ChannelSelect, 1).unwrap(),
        (WizardView::EditHome, WizardEffect::CommitPost)
    );
    assert_eq!(
        wizard_transition(PanelAction::DeleteConfirm, 1).unwrap(),
        (WizardView::Deleted, WizardEffect::CommitDelete)
    );
}

#[test]
fn wizard_delete_flow() {
    assert_eq!(
        wizard_transition(PanelAction::Delete, 1).unwrap(),
        (WizardView::DeleteConfirm, WizardEffect::NoEffect)
    );
}

#[test]
fn color_menu_custom_option_opens_modal() {
    assert_eq!(color_choice("custom").unwrap(), ColorChoice::Custom);
    assert_eq!(color_choice("5793266").unwrap(), ColorChoice::Fixed(5793266));
    assert!(matches!(color_choice("not-a-color"), Err(AppError::InvalidInput(_))));
}

#[test]
fn custom_color_accepts_hash_prefixed_hex() {
    assert_eq!(parse_custom_color("#5865F2").unwrap(), 0x5865F2);
    assert_eq!(parse_custom_color("5865F2").unwrap(), 0x5865F2);
    assert!(matches!(parse_custom_color("#zzz"), Err(AppError::InvalidInput(_))));
    assert!(matches!(parse_custom_color(""), Err(AppError::InvalidInput(_))));
}

#[test]
fn paginates_channels_over_25() {
    let v = channel_page_view(30, 0);
    assert_eq!(v.total_pages, 2);
    assert_eq!((v.start, v.end), (0, 25));
    assert!(v.show_nav);
    assert!(v.prev_disabled);
    assert!(!v.next_disabled);

    let v = channel_page_view(30, 1);
    assert_eq!((v.start, v.end), (25, 30));
    assert!(!v.prev_disabled);
    assert!(v.next_disabled);
}

#[test]
fn page_past_the_end_is_clamped() {
    let v = channel_page_view(30, 9);
    assert_eq!(v.page, 1);
    assert_eq!((v.start, v.end), (25, 30));
}

#[test]
fn single_page_hides_navigation() {
    let v = channel_page_view(10, 0);
    assert_eq!(v.total_pages, 1);
    assert!(!v.show_nav);
    assert_eq!((v.start, v.end), (0, 10));
}

#[test]
fn max_values_capped_at_25() {
    assert_eq!(select_menu_max_values(30), 25);
    assert_eq!(select_menu_max_values(25), 25);
    assert_eq!(select_menu_max_values(3), 3);
}

#[test]
fn role_label_validation_trims_and_bounds() {
    assert_eq!(validate_role_label(" Mod ").unwrap(), "Mod");
    assert!(matches!(validate_role_label("   "), Err(AppError::InvalidInput(_))));
    let long = "x".repeat(81);
    assert!(matches!(validate_role_label(&long), Err(AppError::InvalidInput(_))));
    let edge = "x".repeat(80);
    assert_eq!(validate_role_label(&edge).unwrap(), edge);
}
