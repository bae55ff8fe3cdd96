use role_panel::notify::ConsumerAction;
use role_panel::notify::ErrorNotification;
use role_panel::notify::ErrorSeverity;
use role_panel::notify::NotificationQueue;
use role_panel::notify::build_embed;
use role_panel::notify::consume_notification;
use role_panel::notify::truncate_field;

fn sample(title: &str) -> ErrorNotification {
    ErrorNotification::new(ErrorSeverity::Error, title.to_string(), "boom".to_string())
}

#[test]
fn severity_colors_match_palette() {
    assert_eq!(ErrorSeverity::Warning.color(), 0xFFA500);
    assert_eq!(ErrorSeverity::Error.color(), 0xFF0000);
    assert_eq!(ErrorSeverity::Critical.color(), 0x8B0000);
}

#[test]
fn severity_labels() {
    assert_eq!(ErrorSeverity::Warning.label(), "Warning");
    assert_eq!(ErrorSeverity::Error.label(), "Error");
    assert_eq!(ErrorSeverity::Critical.label(), "Critical");
}

#[test]
fn builders_fill_only_their_field() {
    let n = sample("t")
        .with_source("gateway".to_string())
        .with_guild(7)
        .with_user(9)
        .with_info("key".to_string(), "value".to_string());
    assert_eq!(n.source.as_deref(), Some("gateway"));
    assert_eq!(n.guild_id, Some(7));
    assert_eq!(n.user_id, Some(9));
    assert_eq!(n.additional_info, vec![("key".to_string(), "value".to_string())]);
    assert_eq!(n.title, "t");
    assert_eq!(n.description, "boom");
}

#[test]
fn truncate_field_respects_budget_and_marks() {
    assert_eq!(truncate_field("short", 10), "short");
    assert_eq!(truncate_field("abcdefghij", 10), "abcdefghij");
    assert_eq!(truncate_field("abcdefghijk", 10), "abcdefg...");
    assert_eq!(truncate_field("abcd", 3), "...");
}

#[test]
fn embed_truncates_description_to_4096() {
    let long = "d".repeat(5000);
    let n = ErrorNotification::new(ErrorSeverity::Error, "t".to_string(), long.clone());
    let e = build_embed(&n, "2024-01-01T00:00:00.000Z".to_string());
    assert_eq!(e.description.chars().count(), 4096);
    assert!(e.description.ends_with("..."));
    assert_eq!(&e.description[..4093], &long[..4093]);
}

#[test]
fn embed_truncates_detail_values_to_1024() {
    let n = sample("t").with_info("trace".to_string(), "x".repeat(2000));
    let e = build_embed(&n, "ts".to_string());
    let field = e.fields.last().unwrap();
    assert_eq!(field.name, "trace");
    assert_eq!(field.value.chars().count(), 1024);
    assert!(field.value.ends_with("..."));
}

#[test]
fn embed_title_carries_severity_and_tags_render_in_order() {
    let n = ErrorNotification::new(
        ErrorSeverity::Critical,
        "Gateway Fatal Error".to_string(),
        "lost connection".to_string(),
    )
    .with_source("handle_interaction".to_string())
    .with_guild(123)
    .with_user(456);
    let e = build_embed(&n, "ts".to_string());
    assert_eq!(e.title, "🚨 Critical - Gateway Fatal Error");
    assert_eq!(e.color, 0x8B0000);
    assert_eq!(e.fields.len(), 3);
    assert_eq!(e.fields[0].name, "📍 Source");
    assert_eq!(e.fields[0].value, "`handle_interaction`");
    assert_eq!(e.fields[1].name, "🏠 Guild ID");
    assert_eq!(e.fields[1].value, "`123`");
    assert_eq!(e.fields[2].name, "👤 User ID");
    assert_eq!(e.fields[2].value, "`456`");
    assert_eq!(e.footer_text, "Role Panel Bot Error Logger");
    assert_eq!(e.timestamp, "ts");
}

#[test]
fn consumer_without_webhook_discards_every_input() {
    let inputs = vec![
        sample(""),
        sample("a").with_guild(0).with_user(u64::MAX),
        ErrorNotification::new(ErrorSeverity::Warning, "w".to_string(), "x".repeat(10000)),
        sample("info").with_info("k".to_string(), String::new()),
    ];
    for n in &inputs {
        let action = consume_notification(n, false, "ts".to_string());
        assert!(matches!(action, ConsumerAction::Discard));
    }
}

#[test]
fn consumer_with_webhook_delivers_an_embed() {
    let action = consume_notification(&sample("t"), true, "ts".to_string());
    match action {
        ConsumerAction::Deliver(e) => assert_eq!(e.title, "❌ Error - t"),
        ConsumerAction::Discard => panic!("expected delivery"),
    }
}

#[test]
fn queue_drains_in_fifo_order() {
    let mut q = NotificationQueue::new();
    assert_eq!(q.len(), 0);
    assert!(q.dequeue().is_none());
    q.enqueue(sample("first"));
    q.enqueue(sample("second"));
    q.enqueue(sample("third"));
    assert_eq!(q.len(), 3);
    assert_eq!(q.dequeue().unwrap().title, "first");
    assert_eq!(q.dequeue().unwrap().title, "second");
    assert_eq!(q.dequeue().unwrap().title, "third");
    assert!(q.dequeue().is_none());
}
