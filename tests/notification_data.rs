use notifications::{Attachment, NotificationData, NotificationsBuilder, Schedule, ScheduleEvery};

#[test]
fn test_notification_data_id() {
    let mut data = NotificationData::default();
    data.id = 42;
    assert_eq!(data.id, 42);
}

#[test]
fn test_notification_data_channel_id() {
    let mut data = NotificationData::default();
    data.channel_id = Some("test_channel".to_string());
    assert_eq!(data.channel_id, Some("test_channel".to_string()));
}

#[test]
fn test_notification_data_title() {
    let mut data = NotificationData::default();
    data.title = Some("Test Title".to_string());
    assert_eq!(data.title, Some("Test Title".to_string()));
}

#[test]
fn test_notification_data_body() {
    let mut data = NotificationData::default();
    data.body = Some("Test Body".to_string());
    assert_eq!(data.body, Some("Test Body".to_string()));
}

#[test]
fn test_notification_data_large_body() {
    let mut data = NotificationData::default();
    data.large_body = Some("Large Body Text".to_string());
    assert_eq!(data.large_body, Some("Large Body Text".to_string()));
}

#[test]
fn test_notification_data_summary() {
    let mut data = NotificationData::default();
    data.summary = Some("Summary Text".to_string());
    assert_eq!(data.summary, Some("Summary Text".to_string()));
}

#[test]
fn test_notification_data_action_type_id() {
    let mut data = NotificationData::default();
    data.action_type_id = Some("action_type".to_string());
    assert_eq!(data.action_type_id, Some("action_type".to_string()));
}

#[test]
fn test_notification_data_group() {
    let mut data = NotificationData::default();
    data.group = Some("test_group".to_string());
    assert_eq!(data.group, Some("test_group".to_string()));
}

#[test]
fn test_notification_data_sound() {
    let mut data = NotificationData::default();
    data.sound = Some("notification_sound".to_string());
    assert_eq!(data.sound, Some("notification_sound".to_string()));
}

#[test]
fn test_notification_data_icon() {
    let mut data = NotificationData::default();
    data.icon = Some("icon_name".to_string());
    assert_eq!(data.icon, Some("icon_name".to_string()));
}

#[test]
fn test_notification_data_large_icon() {
    let mut data = NotificationData::default();
    data.large_icon = Some("large_icon_name".to_string());
    assert_eq!(data.large_icon, Some("large_icon_name".to_string()));
}

#[test]
fn test_notification_data_icon_color() {
    let mut data = NotificationData::default();
    data.icon_color = Some("#FF0000".to_string());
    assert_eq!(data.icon_color, Some("#FF0000".to_string()));
}

#[test]
fn test_notification_data_group_summary() {
    let mut data = NotificationData::default();
    data.group_summary = true;
    assert!(data.group_summary);
}

#[test]
fn test_notification_data_ongoing() {
    let mut data = NotificationData::default();
    data.ongoing = true;
    assert!(data.ongoing);
}

#[test]
fn test_notification_data_auto_cancel() {
    let mut data = NotificationData::default();
    data.auto_cancel = true;
    assert!(data.auto_cancel);
}

#[test]
fn test_notification_data_silent() {
    let mut data = NotificationData::default();
    data.silent = true;
    assert!(data.silent);
}

#[test]
fn test_notification_data_inbox_lines() {
    let mut data = NotificationData::default();
    data.inbox_lines.push("Line 1".to_string());
    data.inbox_lines.push("Line 2".to_string());
    assert_eq!(data.inbox_lines.len(), 2);
    assert_eq!(data.inbox_lines[0], "Line 1");
    assert_eq!(data.inbox_lines[1], "Line 2");
}

#[test]
fn test_notification_data_attachments() {
    let mut data = NotificationData::default();
    let url = url::Url::parse("https://example.com/image.png").expect("Failed to parse URL");
    let attachment = Attachment::new("attachment1", url);
    data.attachments.push(attachment);
    assert_eq!(data.attachments.len(), 1);
}

#[test]
fn test_notification_data_extra() {
    let mut data = NotificationData::default();
    data.extra
        .insert("key1".to_string(), serde_json::Value::from("value1"));
    data.extra.insert("key2".to_string(), serde_json::Value::from(42));
    assert_eq!(data.extra.len(), 2);
    assert_eq!(data.extra.get("key1"), Some(&serde_json::Value::from("value1")));
    assert_eq!(data.extra.get("key2"), Some(&serde_json::Value::from(42)));
}

#[test]
fn test_notification_data_schedule() {
    let mut data = NotificationData::default();
    let schedule = Schedule::Every {
        interval: ScheduleEvery::Day,
        count: 1,
        allow_while_idle: false,
    };
    data.schedule = Some(schedule);
    assert!(data.schedule.is_some());
    assert!(matches!(data.schedule, Some(Schedule::Every { .. })));
}

#[test]
fn test_notification_data_default() {
    let data = NotificationData::default();
    assert!(data.id != 0);
    assert!(data.channel_id.is_none());
    assert!(data.title.is_none());
    assert!(data.body.is_none());
    assert!(data.schedule.is_none());
    assert!(!data.group_summary);
    assert!(!data.ongoing);
    assert!(!data.auto_cancel);
    assert!(!data.silent);
    assert!(data.inbox_lines.is_empty());
    assert!(data.attachments.is_empty());
    assert!(data.extra.is_empty());
}

#[test]
fn default_ids_are_never_zero() {
    for _ in 0..1000 {
        assert_ne!(NotificationData::default().id, 0);
        assert_ne!(NotificationsBuilder::new().data.id, 0);
    }
}

#[test]
fn builder_sets_fields() {
    let b = NotificationsBuilder::new()
        .id(7)
        .title("T")
        .body("B")
        .large_body("L")
        .inbox_line("one")
        .inbox_line("two")
        .group("g")
        .group_summary()
        .extra("k", serde_json::Value::from(1))
        .extra("k", serde_json::Value::from(2))
        .ongoing()
        .auto_cancel()
        .silent();
    let d = &b.data;
    assert_eq!(d.id, 7);
    assert_eq!(d.title.as_deref(), Some("T"));
    assert_eq!(d.body.as_deref(), Some("B"));
    assert_eq!(d.large_body.as_deref(), Some("L"));
    assert_eq!(d.inbox_lines, vec!["one".to_string(), "two".to_string()]);
    assert_eq!(d.group.as_deref(), Some("g"));
    assert!(d.group_summary && d.ongoing && d.auto_cancel && d.silent);
    assert_eq!(d.extra.len(), 1);
    assert_eq!(d.extra.get("k"), Some(&serde_json::Value::from(2)));
    assert!(d.summary.is_none());
}
