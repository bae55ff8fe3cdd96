use role_panel::error::AppError;
use role_panel::model::PanelRole;
use role_panel::panels::check_create_name_free;
use role_panel::panels::validate_panel_name;
use role_panel::roles::RoleInfo;
use role_panel::roles::collect_applied;
use role_panel::roles::compute_sync_plan;
use role_panel::roles::plan_toggle;
use role_panel::roles::resolve_label;
use role_panel::roles::validate_role_manageable;

fn role(panel_id: u128, role_id: i64, label: &str) -> PanelRole {
    PanelRole {
        id: role_id as u128,
        panel_id,
        role_id,
        label: label.to_string(),
        emoji: None,
        description: None,
        position: 0,
        created_at: 0,
    }
}

#[test]
fn plan_adds_only_missing_and_removes_only_deselected() {
    let panel = vec![1, 2, 3, 4];
    let member = vec![2, 3, 99];
    let selected = vec![1, 2];
    let plan = compute_sync_plan(&panel, &member, &selected);
    assert_eq!(plan.current, vec![2, 3]);
    assert_eq!(plan.to_add, vec![1]);
    assert_eq!(plan.to_remove, vec![3]);
}

#[test]
fn plan_partition_covers_current_union_selected() {
    let panel = vec![1, 2, 3, 4, 5];
    let member = vec![1, 2];
    let selected = vec![2, 3, 4];
    let plan = compute_sync_plan(&panel, &member, &selected);
    // to_add and to_remove never share an element
    for a in &plan.to_add {
        assert!(!plan.to_remove.contains(a));
    }
    // to_add + current + to_remove reconstructs current union selected
    let mut together: Vec<u64> = vec![];
    together.extend(&plan.to_add);
    together.extend(&plan.current);
    together.extend(&plan.to_remove);
    together.sort();
    together.dedup();
    let mut expected: Vec<u64> = vec![];
    expected.extend(&plan.current);
    expected.extend(&selected);
    expected.sort();
    expected.dedup();
    assert_eq!(together, expected);
}

#[test]
fn resync_with_same_selection_changes_nothing() {
    let panel = vec![10, 20, 30];
    let member = vec![20, 77];
    let selected = vec![10, 20];
    let plan = compute_sync_plan(&panel, &member, &selected);
    assert_eq!(plan.to_add, vec![10]);
    assert_eq!(plan.to_remove, Vec::<u64>::new());

    // apply the plan to the member's roles
    let mut member_after: Vec<u64> = member
        .iter()
        .copied()
        .filter(|r| !plan.to_remove.contains(r))
        .collect();
    member_after.extend(&plan.to_add);

    let again = compute_sync_plan(&panel, &member_after, &selected);
    assert_eq!(again.to_add, Vec::<u64>::new());
    assert_eq!(again.to_remove, Vec::<u64>::new());
}

#[test]
fn end_to_end_colors_panel_sync_scenario() {
    // create panel "Colors" in guild G
    assert_eq!(validate_panel_name("Colors").unwrap(), "Colors");
    assert!(check_create_name_free(false).is_ok());

    // the panel offers roles A and B; the member has neither
    let role_a: u64 = 111;
    let role_b: u64 = 222;
    let panel = vec![role_a, role_b];
    let mut member: Vec<u64> = vec![];

    // sync(selected = [A]) adds A and removes nothing
    let plan = compute_sync_plan(&panel, &member, &vec![role_a]);
    assert_eq!(plan.to_add, vec![role_a]);
    assert_eq!(plan.to_remove, Vec::<u64>::new());
    member.retain(|r| !plan.to_remove.contains(r));
    member.extend(&plan.to_add);

    // sync(selected = [A]) again changes nothing
    let plan = compute_sync_plan(&panel, &member, &vec![role_a]);
    assert_eq!(plan.to_add, Vec::<u64>::new());
    assert_eq!(plan.to_remove, Vec::<u64>::new());

    // sync(selected = []) removes A
    let plan = compute_sync_plan(&panel, &member, &vec![]);
    assert_eq!(plan.to_add, Vec::<u64>::new());
    assert_eq!(plan.to_remove, vec![role_a]);
}

#[test]
fn failed_candidate_is_skipped_without_aborting_the_batch() {
    let ids = vec![1, 2, 3];
    let labels = vec!["one".to_string(), "two".to_string(), "three".to_string()];
    // the middle candidate fails hierarchy validation
    let ok = vec![true, false, true];
    let applied = collect_applied(&ids, &labels, &ok);
    let applied_ids: Vec<u64> = applied.iter().map(|c| c.role_id).collect();
    let applied_labels: Vec<String> = applied.iter().map(|c| c.label.clone()).collect();
    assert_eq!(applied_ids, vec![1, 3]);
    assert_eq!(applied_labels, vec!["one".to_string(), "three".to_string()]);
}

#[test]
fn resolve_label_prefers_panel_label_and_falls_back_to_id() {
    let roles = vec![role(1, 111, "Red"), role(1, 222, "Blue")];
    assert_eq!(resolve_label(&roles, 222), "Blue");
    assert_eq!(resolve_label(&roles, 999), "999");
}

#[test]
fn toggle_of_role_outside_panel_is_not_found() {
    let roles = vec![role(1, 111, "Red")];
    let r = plan_toggle(&roles, 999, false);
    assert!(matches!(r, Err(AppError::NotFound("Role"))));
}

#[test]
fn toggle_flips_membership_and_reports_label() {
    let roles = vec![role(1, 111, "Red")];
    let (added, label) = plan_toggle(&roles, 111, false).unwrap();
    assert!(added);
    assert_eq!(label, "Red");
    let (added, _) = plan_toggle(&roles, 111, true).unwrap();
    assert!(!added);
}

#[test]
fn validation_rejects_missing_role() {
    let roles = vec![RoleInfo { id: 5, position: 1, managed: false }];
    let r = validate_role_manageable(&roles, 6, 100, &vec![5]);
    assert!(matches!(r, Err(AppError::NotFound("Role"))));
}

#[test]
fn validation_rejects_managed_role() {
    let roles = vec![RoleInfo { id: 5, position: 1, managed: true }];
    let r = validate_role_manageable(&roles, 5, 100, &vec![]);
    match r {
        Err(AppError::Permission(m)) => assert_eq!(m, "Cannot assign managed role."),
        other => panic!("expected permission error, got {:?}", other),
    }
}

#[test]
fn validation_rejects_everyone_role() {
    // the implicit everyone role carries the guild's own id
    let roles = vec![RoleInfo { id: 100, position: 0, managed: false }];
    let r = validate_role_manageable(&roles, 100, 100, &vec![]);
    match r {
        Err(AppError::Permission(m)) => assert_eq!(m, "Cannot assign @everyone role."),
        other => panic!("expected permission error, got {:?}", other),
    }
}

#[test]
fn validation_rejects_role_at_or_above_bot() {
    let roles = vec![
        RoleInfo { id: 5, position: 7, managed: false },
        RoleInfo { id: 9, position: 7, managed: false },
    ];
    // the bot's highest role sits at position 7 as well
    let r = validate_role_manageable(&roles, 5, 100, &vec![9]);
    match r {
        Err(AppError::Permission(m)) => {
            assert_eq!(m, "Role is higher than or equal to bot's highest role.")
        },
        other => panic!("expected permission error, got {:?}", other),
    }
}

#[test]
fn validation_accepts_role_below_bot() {
    let roles = vec![
        RoleInfo { id: 5, position: 3, managed: false },
        RoleInfo { id: 9, position: 7, managed: false },
    ];
    let r = validate_role_manageable(&roles, 5, 100, &vec![9]);
    assert!(r.is_ok());
}
