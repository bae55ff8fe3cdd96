use role_panel::audit::AuditAction;
use role_panel::audit::audit_channel;
use role_panel::audit::audit_description;
use role_panel::audit::audit_field_name;
use role_panel::audit::role_lines;
use role_panel::audit::sync_log_needed;
use role_panel::config::BotInfo;
use role_panel::config::Config;
use role_panel::config::ConfigError;
use role_panel::model::GuildConfig;
use role_panel::roles::AppliedChange;

#[test]
fn audit_action_titles_and_colors() {
    assert_eq!(AuditAction::RoleAdded.title(), "ロール付与");
    assert_eq!(AuditAction::RoleRemoved.title(), "ロール解除");
    assert_eq!(AuditAction::RolesUpdated.title(), "ロール更新");
    assert_eq!(AuditAction::RoleAdded.color(), 0x57F287);
    assert_eq!(AuditAction::RoleRemoved.color(), 0xED4245);
    assert_eq!(AuditAction::RolesUpdated.color(), 0x5865F2);
}

#[test]
fn audit_is_disabled_without_configuration() {
    assert_eq!(audit_channel(&None), None);
    let config = GuildConfig { guild_id: 1, audit_channel_id: None, created_at: 0, updated_at: 0 };
    assert_eq!(audit_channel(&Some(config)), None);
    let config = GuildConfig {
        guild_id: 1,
        audit_channel_id: Some(42),
        created_at: 0,
        updated_at: 0,
    };
    assert_eq!(audit_channel(&Some(config)), Some(42));
}

#[test]
fn sync_log_skips_empty_changes() {
    assert!(!sync_log_needed(0, 0));
    assert!(sync_log_needed(1, 0));
    assert!(sync_log_needed(0, 2));
}

#[test]
fn audit_description_lists_user_panel_and_count() {
    let text = audit_description(42, "Colors", 3);
    assert_eq!(text, "**ユーザー**\n<@42> (`42`)\n\n**パネル**\nColors\n\n**変更数:** 3");
    let text = audit_description(42, "Colors", 0);
    assert!(!text.contains("変更数"));
}

#[test]
fn role_lines_render_one_bullet_per_change() {
    let entries = vec![
        AppliedChange { role_id: 1, label: "Red".to_string() },
        AppliedChange { role_id: 2, label: "Blue".to_string() },
    ];
    assert_eq!(role_lines(&entries), "• <@&1> `Red`\n• <@&2> `Blue`");
    assert_eq!(role_lines(&vec![]), "");
}

#[test]
fn audit_field_names_carry_counts() {
    assert_eq!(audit_field_name(true, 2), "付与 (2)");
    assert_eq!(audit_field_name(false, 1), "解除 (1)");
}

fn base_values() -> (Option<String>, Option<String>) {
    (Some("token".to_string()), Some("postgres://db".to_string()))
}

#[test]
fn config_requires_token_and_database() {
    let r = Config::from_values(None, None, None, None, None, None, None, None, None);
    assert!(matches!(r, Err(ConfigError::Missing("DISCORD_TOKEN"))));

    let r = Config::from_values(
        Some(String::new()),
        Some("db".to_string()),
        None,
        None,
        None,
        None,
        None,
        None,
        None,
    );
    assert!(matches!(r, Err(ConfigError::Invalid("DISCORD_TOKEN", _))));

    let r = Config::from_values(Some("t".to_string()), None, None, None, None, None, None, None, None);
    assert!(matches!(r, Err(ConfigError::Missing("DATABASE_URL"))));
}

#[test]
fn config_defaults_port_and_pool() {
    let (t, d) = base_values();
    let c = Config::from_values(t, d, None, None, None, None, None, None, None).unwrap();
    assert_eq!(c.health_port, 8080);
    assert_eq!(c.database_max_connections, 5);
    assert_eq!(c.error_webhook_url, None);
    assert_eq!(c.bot_name, "Role Panel Bot");
}

#[test]
fn config_rejects_bad_port() {
    let (t, d) = base_values();
    let r = Config::from_values(t, d, Some("70000".to_string()), None, None, None, None, None, None);
    assert!(matches!(r, Err(ConfigError::Invalid("HEALTH_PORT", _))));
    let (t, d) = base_values();
    let r = Config::from_values(t, d, Some("http".to_string()), None, None, None, None, None, None);
    assert!(matches!(r, Err(ConfigError::Invalid("HEALTH_PORT", _))));
}

#[test]
fn config_rejects_bad_pool_size() {
    let (t, d) = base_values();
    let r = Config::from_values(t, d, None, Some("lots".to_string()), None, None, None, None, None);
    assert!(matches!(r, Err(ConfigError::Invalid("DATABASE_MAX_CONNECTIONS", _))));
}

#[test]
fn config_empty_webhook_disables_notifications() {
    let (t, d) = base_values();
    let c = Config::from_values(t, d, None, None, Some(String::new()), None, None, None, None)
        .unwrap();
    assert_eq!(c.error_webhook_url, None);
    let (t, d) = base_values();
    let c = Config::from_values(
        t,
        d,
        None,
        None,
        Some("https://example.invalid/hook".to_string()),
        None,
        None,
        None,
        None,
    )
    .unwrap();
    assert_eq!(c.error_webhook_url.as_deref(), Some("https://example.invalid/hook"));
}

#[test]
fn config_error_messages() {
    assert_eq!(
        ConfigError::Missing("DISCORD_TOKEN").message(),
        "missing environment variable: DISCORD_TOKEN"
    );
    assert_eq!(
        ConfigError::Invalid("HEALTH_PORT", "must be a valid port number").message(),
        "invalid environment variable HEALTH_PORT: must be a valid port number"
    );
}

#[test]
fn bot_info_init_and_fallback() {
    let b = BotInfo::init(
        "Name".to_string(),
        "Desc".to_string(),
        "1".to_string(),
        "https://example.invalid".to_string(),
    );
    assert_eq!(b.name, "Name");
    let f = BotInfo::fallback();
    assert_eq!(f.name, "Role Panel Bot");
    assert_eq!(f.developer_id, "1340270150217236501");
}
