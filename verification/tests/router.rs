use role_panel::error::AppError;
use role_panel::router::PanelAction;
use role_panel::router::RoleAction;
use role_panel::router::RoutedAction;
use role_panel::router::route_custom_id;

const PANEL_ID: &str = "550e8400-e29b-41d4-a716-446655440000";
const PANEL_ID_VALUE: u128 = 0x550e8400_e29b_41d4_a716_446655440000;

#[test]
fn panel_action_with_invalid_uuid_is_invalid_input() {
    let r = route_custom_id("panel:not-a-uuid:add_role");
    assert!(matches!(r, Err(AppError::InvalidInput(_))));
}

#[test]
fn panel_actions_parse_with_valid_uuid() {
    let cases = [
        ("add_role", PanelAction::AddRole),
        ("role_add_select", PanelAction::RoleAddSelect),
        ("remove_role", PanelAction::RemoveRole),
        ("role_remove_select", PanelAction::RoleRemoveSelect),
        ("style", PanelAction::Style),
        ("color", PanelAction::Color),
        ("color_select", PanelAction::ColorSelect),
        ("custom_color", PanelAction::CustomColor),
        ("preview", PanelAction::Preview),
        ("back_to_edit", PanelAction::BackToEdit),
        ("post", PanelAction::Post),
        ("channel_select", PanelAction::ChannelSelect),
        ("delete", PanelAction::Delete),
        ("delete_confirm", PanelAction::DeleteConfirm),
        ("delete_cancel", PanelAction::DeleteCancel),
        ("back", PanelAction::Back),
    ];
    for (token, expected) in cases {
        let id = format!("panel:{}:{}", PANEL_ID, token);
        let r = route_custom_id(&id).unwrap();
        assert_eq!(
            r,
            RoutedAction::Panel { panel_id: PANEL_ID_VALUE, action: expected },
            "action {}",
            token
        );
    }
}

#[test]
fn channel_page_carries_its_page_number() {
    let id = format!("panel:{}:channel_page:3", PANEL_ID);
    assert_eq!(
        route_custom_id(&id).unwrap(),
        RoutedAction::Panel { panel_id: PANEL_ID_VALUE, action: PanelAction::ChannelPage(3) }
    );
    let bad = format!("panel:{}:channel_page:x", PANEL_ID);
    assert!(matches!(route_custom_id(&bad), Err(AppError::InvalidInput(_))));
}

#[test]
fn unknown_panel_action_is_invalid_input() {
    let id = format!("panel:{}:frobnicate", PANEL_ID);
    assert!(matches!(route_custom_id(&id), Err(AppError::InvalidInput(_))));
}

#[test]
fn too_few_tokens_is_invalid_input() {
    assert!(matches!(route_custom_id("panel"), Err(AppError::InvalidInput(_))));
    assert!(matches!(
        route_custom_id(&format!("panel:{}", PANEL_ID)),
        Err(AppError::InvalidInput(_))
    ));
    assert!(matches!(route_custom_id(""), Err(AppError::InvalidInput(_))));
}

#[test]
fn unknown_family_is_invalid_input() {
    let id = format!("widget:{}:add_role", PANEL_ID);
    assert!(matches!(route_custom_id(&id), Err(AppError::InvalidInput(_))));
}

#[test]
fn four_token_toggle_parses_as_button_path() {
    let id = format!("role:{}:123:toggle", PANEL_ID);
    assert_eq!(
        route_custom_id(&id).unwrap(),
        RoutedAction::Role { panel_id: PANEL_ID_VALUE, action: RoleAction::Toggle(123) }
    );
}

#[test]
fn three_token_select_parses_as_menu_path() {
    let id = format!("role:{}:select", PANEL_ID);
    assert_eq!(
        route_custom_id(&id).unwrap(),
        RoutedAction::Role { panel_id: PANEL_ID_VALUE, action: RoleAction::Select }
    );
    let id = format!("role:{}:confirm", PANEL_ID);
    assert_eq!(
        route_custom_id(&id).unwrap(),
        RoutedAction::Role { panel_id: PANEL_ID_VALUE, action: RoleAction::Confirm }
    );
}

#[test]
fn toggle_with_non_numeric_role_id_is_invalid_input() {
    let id = format!("role:{}:abc:toggle", PANEL_ID);
    assert!(matches!(route_custom_id(&id), Err(AppError::InvalidInput(_))));
}

#[test]
fn role_family_with_invalid_uuid_is_invalid_input() {
    assert!(matches!(
        route_custom_id("role:not-a-uuid:select"),
        Err(AppError::InvalidInput(_))
    ));
}

#[test]
fn create_modal_identifier_routes_to_panel_create() {
    assert_eq!(route_custom_id("panel:create:modal").unwrap(), RoutedAction::PanelCreate);
}

#[test]
fn role_label_carries_the_role_id() {
    let id = format!("panel:{}:role_label:42", PANEL_ID);
    assert_eq!(
        route_custom_id(&id).unwrap(),
        RoutedAction::Panel { panel_id: PANEL_ID_VALUE, action: PanelAction::RoleLabel(42) }
    );
}
