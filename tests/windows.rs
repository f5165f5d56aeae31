use notifications::capability::is_permission_granted;
use notifications::tag::{id_of_tag, tag_for};
use notifications::windows::{
    active_from_native, cancel_selection, on_activated, pending_from_native,
    permission_from_setting, tags_for_ids, NotificationSetting,
};
use notifications::{
    Action, ActionType, Channel, Error, NotificationsBuilder, Operation, PermissionState, Platform,
    Schedule, ScheduleEvery, WindowsPlugin,
};

fn confirm_type() -> ActionType {
    let mut yes = Action::new("yes", "Yes");
    yes.foreground = true;
    ActionType::new("confirm", vec![yes, Action::new("no", "No")])
}

#[test]
fn confirm_action_reports_the_button_pressed() {
    let mut plugin = WindowsPlugin::new("com.example.app".to_string());
    plugin.register_action_types(vec![confirm_type()]);
    plugin.set_click_listener(true);
    let builder = NotificationsBuilder::new().id(5).title("Proceed?").action_type_id("confirm");
    let request = builder.prepare_show(&plugin).unwrap();
    assert!(request.watch_activation);
    let buttons = request.content.actions.as_ref().expect("button row");
    assert_eq!(buttons.len(), 2);
    assert_eq!(buttons[0].content, "Yes");
    assert_eq!(buttons[0].arguments, "yes");
    assert!(buttons[0].foreground);
    assert_eq!(buttons[1].arguments, "no");
    assert!(!buttons[1].foreground);
    let activation = on_activated(&buttons[0].arguments);
    assert_eq!(activation.action_id, "yes");
    assert!(!activation.clicked);
    assert_eq!(request.notification.action_type_id.as_deref(), Some("confirm"));
}

#[test]
fn bare_click_reports_tap_and_click() {
    let activation = on_activated("");
    assert_eq!(activation.action_id, "tap");
    assert!(activation.clicked);
}

#[test]
fn unregistered_action_type_omits_buttons() {
    let plugin = WindowsPlugin::new("app".to_string());
    let builder = NotificationsBuilder::new().action_type_id("missing").title("t");
    let toast = builder.build_toast(&plugin);
    assert!(toast.actions.is_none());
    assert_eq!(toast.texts, vec!["t".to_string()]);
}

#[test]
fn later_registration_replaces_earlier() {
    let mut plugin = WindowsPlugin::new("app".to_string());
    plugin.register_action_types(vec![confirm_type()]);
    plugin.register_action_types(vec![ActionType::new("confirm", vec![Action::new("ok", "OK")])]);
    let t = plugin.action_type("confirm").unwrap();
    assert_eq!(t.actions.len(), 1);
    assert_eq!(t.actions[0].id, "ok");
    assert!(plugin.action_type("other").is_none());
}

#[test]
fn toast_texts_title_body_large_body_in_order() {
    let plugin = WindowsPlugin::new("app".to_string());
    let builder = NotificationsBuilder::new()
        .title("T")
        .body("B")
        .large_body("L")
        .inbox_line("ignored")
        .icon("logo.png")
        .silent();
    let toast = builder.build_toast(&plugin);
    assert_eq!(toast.texts, vec!["T".to_string(), "B".to_string(), "L".to_string()]);
    assert_eq!(toast.image.as_deref(), Some("logo.png"));
    assert!(toast.silent);
}

#[test]
fn same_id_same_tag_for_cancel() {
    let plugin = WindowsPlugin::new("app".to_string());
    let first = NotificationsBuilder::new().id(-12).title("a").prepare_show(&plugin).unwrap();
    let second = NotificationsBuilder::new().id(-12).title("b").prepare_show(&plugin).unwrap();
    assert_eq!(first.tag, "-12");
    assert_eq!(first.tag, second.tag);
    assert!(first.group.is_none() && second.group.is_none());
    let store = vec![first.tag.clone(), "3".to_string(), second.tag.clone()];
    assert_eq!(cancel_selection(&store, &vec![-12]), vec![true, false, true]);
}

#[test]
fn cancel_twice_changes_nothing_the_second_time() {
    let store = vec!["1".to_string(), "2".to_string(), "x".to_string(), "1".to_string()];
    let ids = vec![1, 99];
    let first = cancel_selection(&store, &ids);
    assert_eq!(first, vec![true, false, false, true]);
    let remaining: Vec<String> = store
        .iter()
        .zip(first.iter())
        .filter(|(_, c)| !**c)
        .map(|(t, _)| t.clone())
        .collect();
    let second = cancel_selection(&remaining, &ids);
    assert!(second.iter().all(|c| !c));
}

#[test]
fn scheduled_toast_is_not_watched() {
    let mut plugin = WindowsPlugin::new("app".to_string());
    plugin.set_click_listener(true);
    let s = Schedule::Every { interval: ScheduleEvery::Minute, count: 2, allow_while_idle: false };
    let request = NotificationsBuilder::new().schedule(s).prepare_show(&plugin).unwrap();
    assert!(request.delivery.is_some());
    assert!(!request.watch_activation);
    let plain = NotificationsBuilder::new().group("g").prepare_show(&plugin).unwrap();
    assert!(plain.delivery.is_none());
    assert!(plain.watch_activation);
    assert_eq!(plain.group.as_deref(), Some("g"));
    plugin.set_click_listener(false);
    assert!(!plugin.is_click_listener_active());
    let quiet = NotificationsBuilder::new().prepare_show(&plugin).unwrap();
    assert!(!quiet.watch_activation);
}

#[test]
fn tags_are_decimal_ids() {
    assert_eq!(tag_for(0), "0");
    assert_eq!(tag_for(2147483647), "2147483647");
    assert_eq!(tag_for(-2147483648), "-2147483648");
    assert_eq!(id_of_tag("+7"), Some(7));
    assert_eq!(id_of_tag("-0"), Some(0));
    assert_eq!(id_of_tag("2147483648"), None);
    assert_eq!(id_of_tag(""), None);
    assert_eq!(id_of_tag("-"), None);
    assert_eq!(id_of_tag("12a"), None);
    assert_eq!(tags_for_ids(&vec![1, -2]), vec!["1".to_string(), "-2".to_string()]);
}

#[test]
fn history_entries_become_projections() {
    let texts = vec!["Title".to_string(), "Body".to_string(), "More".to_string()];
    let active = active_from_native("42".to_string(), Some("g".to_string()), &texts);
    assert_eq!(active.id(), 42);
    assert_eq!(active.tag(), Some("42"));
    assert_eq!(active.title(), Some("Title"));
    assert_eq!(active.body(), Some("Body"));
    assert_eq!(active.group(), Some("g"));
    assert!(!active.group_summary());
    assert!(active.data().is_empty());
    assert!(active.extra().is_empty());
    assert!(active.attachments().is_empty());
    assert!(active.action_type_id().is_none());
    assert!(active.schedule().is_none());
    assert!(active.sound().is_none());
    let odd = active_from_native("abc".to_string(), None, &vec![]);
    assert_eq!(odd.id(), 0);
    assert!(odd.title().is_none());
}

#[test]
fn scheduled_entries_become_pending() {
    let ticks = 116_444_736_000_000_000 + 10_000_000;
    let p = pending_from_native("9", &vec!["T".to_string()], Some(ticks)).unwrap();
    assert_eq!(p.id(), 9);
    assert_eq!(p.title(), Some("T"));
    assert!(p.body().is_none());
    match p.schedule() {
        Schedule::At { date, repeating, allow_while_idle } => {
            assert_eq!(date.unix_nanos(), 1_000_000_000);
            assert!(!repeating && !allow_while_idle);
        }
        _ => panic!("expected an absolute schedule"),
    }
    assert!(pending_from_native("9", &vec![], None).is_none());
    assert!(pending_from_native("9", &vec![], Some(i64::MAX)).is_none());
}

#[test]
fn channels_are_unsupported_everywhere() {
    for (platform, text) in [
        (Platform::Desktop, "Notification channels are not supported with notify-rust"),
        (Platform::MacOs, "Notification channels are not supported on macOS"),
        (Platform::Windows, "Notification channels are not supported on Windows"),
    ] {
        let channel = Channel::builder("c", "C").build();
        assert!(matches!(platform.create_channel(&channel), Err(Error::Io(ref m)) if m == text));
        assert!(matches!(platform.delete_channel("c"), Err(Error::Io(ref m)) if m == text));
        assert!(matches!(platform.list_channels(), Err(Error::Io(ref m)) if m == text));
    }
}

#[test]
fn capability_table() {
    assert!(Platform::Windows.check(Operation::Cancel).is_ok());
    assert!(Platform::MacOs.check(Operation::Pending).is_ok());
    assert!(matches!(
        Platform::Desktop.check(Operation::Cancel),
        Err(Error::Io(m)) if m == "Canceling notifications is not supported with notify-rust"
    ));
    assert!(matches!(
        Platform::Windows.check(Operation::RegisterForPush),
        Err(Error::Io(m)) if m == "Push notifications feature not enabled"
    ));
    assert_eq!(Platform::Desktop.fixed_permission(), Some(PermissionState::Granted));
    assert_eq!(Platform::Windows.fixed_permission(), None);
}

#[test]
fn permission_mappings() {
    assert_eq!(permission_from_setting(NotificationSetting::Enabled), PermissionState::Granted);
    assert_eq!(
        permission_from_setting(NotificationSetting::DisabledByGroupPolicy),
        PermissionState::Denied
    );
    assert_eq!(permission_from_setting(NotificationSetting::Unknown), PermissionState::Prompt);
    assert_eq!(is_permission_granted(PermissionState::Granted), Some(true));
    assert_eq!(is_permission_granted(PermissionState::Denied), Some(false));
    assert_eq!(is_permission_granted(PermissionState::PromptWithRationale), None);
}

#[test]
fn desktop_title_falls_back_to_product_name() {
    let n = NotificationsBuilder::new()
        .body("b")
        .desktop_notification("com.example", &Some("Example".to_string()));
    assert_eq!(n.title.as_deref(), Some("Example"));
    assert_eq!(n.body.as_deref(), Some("b"));
    assert_eq!(n.identifier, "com.example");
    let own = NotificationsBuilder::new().title("t").desktop_notification("id", &None);
    assert_eq!(own.title.as_deref(), Some("t"));
    assert!(own.icon.is_none());
}
