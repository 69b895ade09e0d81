use layer_shell_io::dbus::{CompleteType, DBusError, HeaderField, IncomingMessage, IncomingValue, MessageType};
use layer_shell_io::sni_app::{App, AppRequest, EncodeError, PropertyValue, Service, State, TrayEvent};
use layer_shell_io::ksni::{TrayIcon, TrayIconPixmap};
use layer_shell_io::dbusmenu::TrayItem;
use layer_shell_io::tray_app::{GetAllProps, TrayApp};
use layer_shell_io::tray_host::{handle_incoming_request, HostEvent, Item, State as Registry, Tray};
use layer_shell_io::watcher::{
    ksni_introspection_xml, root_introspection_xml, IntrospectionRequest, KSNIRequest, OutgoingMessage, OutgoingValue,
    StatusNotifierWatcher, StatusNotifierWatcherIntrospection, Watcher,
};

fn s(v: &str) -> IncomingValue {
    IncomingValue::String(v.to_string())
}

fn message(message_type: MessageType, path: &str, interface: &str, member: &str, sender: &str, body: Vec<IncomingValue>) -> IncomingMessage {
    IncomingMessage {
        message_type,
        serial: 11,
        reply_serial: None,
        path: Some(path.to_string()),
        interface: Some(interface.to_string()),
        member: Some(member.to_string()),
        destination: Some("org.kde.StatusNotifierWatcher".to_string()),
        sender: Some(sender.to_string()),
        body: Some(body),
    }
}

fn register(sender: &str, item: &str) -> IncomingMessage {
    message(MessageType::MethodCall, "/StatusNotifierWatcher", "org.kde.StatusNotifierWatcher", "RegisterStatusNotifierItem", sender, vec![s(item)])
}

fn name_icon(name: &str) -> TrayIcon {
    TrayIcon::Name { name: name.to_string() }
}

#[test]
fn app_state_announces_once() {
    let mut st = State::Nothing;
    assert!(st.on_icon_received(name_icon("a")).is_none());
    assert!(st.on_icon_received(name_icon("b")).is_none());
    match st.on_layout_receieved(vec![]) {
        Some(TrayEvent::Initialized(TrayIcon::Name { name }, items)) => {
            assert_eq!(name, "b");
            assert!(items.is_empty());
        },
        other => panic!("unexpected {other:?}"),
    }
    assert!(matches!(st.on_icon_received(name_icon("c")), Some(TrayEvent::IconUpdated(_))));
    assert!(matches!(st.on_layout_receieved(vec![]), Some(TrayEvent::MenuUpdated(_))));
    let mut other = State::Nothing;
    assert!(other.on_layout_receieved(vec![]).is_none());
    assert!(matches!(other.on_icon_received(TrayIcon::Unset), Some(TrayEvent::Initialized(TrayIcon::Unset, _))));
}

#[test]
fn services() {
    let svc = Service::new(":1.7".to_string(), "org.app".to_string());
    assert_eq!(svc.raw_address(), ":1.7");
    assert_eq!(svc.name(), "org.app");
}

#[test]
fn app_lifecycle() {
    let mut app = App::new(Service::new(":1.7".to_string(), "org.app".to_string()));
    let reqs = app.init();
    assert!(matches!(&reqs[..], [AppRequest::AddMatch { rule }, AppRequest::GetAndSubscribeProps { destination }]
        if rule.contains("member='NewIcon'") && destination == "org.app"));
    let from_app = message(MessageType::MethodReturn, "/", "", "", ":1.7", vec![]);
    let (e, reqs) = app.handle(&from_app, Some(PropertyValue::Menu("/MenuBar".to_string()))).unwrap();
    assert!(e.is_none());
    assert!(matches!(&reqs[0], AppRequest::GetLayout { destination, path } if destination == "org.app" && path == "/MenuBar"));
    assert_eq!(reqs.len(), 3);
    let (_, again) = app.handle(&from_app, Some(PropertyValue::Menu("/Other".to_string()))).unwrap();
    assert!(again.is_empty());
    assert_eq!(app.menu, "/MenuBar");
    let (e, _) = app.handle(&from_app, Some(PropertyValue::IconName(String::new()))).unwrap();
    assert!(e.is_none());
    let (e, _) = app.handle(&from_app, Some(PropertyValue::IconName("app-icon".to_string()))).unwrap();
    assert!(e.is_none());
    app.layout_requested(40);
    let root = IncomingValue::Struct(vec![IncomingValue::Int32(0), IncomingValue::Array(CompleteType::Other, vec![]), IncomingValue::Array(CompleteType::Other, vec![])]);
    let mut reply = message(MessageType::MethodReturn, "/", "", "", ":1.7", vec![IncomingValue::UInt32(1), root]);
    reply.reply_serial = Some(40);
    let (e, _) = app.handle(&reply, None).unwrap();
    assert!(matches!(e, Some(TrayEvent::Initialized(TrayIcon::Name { .. }, _))));
    let pixmap = TrayIconPixmap { width: 1, height: 1, bytes: vec![0, 0, 0, 0] };
    let (e, _) = app.handle(&from_app, Some(PropertyValue::IconPixmap(pixmap))).unwrap();
    assert!(matches!(e, Some(TrayEvent::IconUpdated(TrayIcon::Pixmap(_)))));
    let stranger = message(MessageType::MethodReturn, "/", "", "", ":1.8", vec![]);
    let (e, reqs) = app.handle(&stranger, Some(PropertyValue::IconName("x".to_string()))).unwrap();
    assert!(e.is_none() && reqs.is_empty());
    let new_icon = message(MessageType::Signal, "/StatusNotifierItem", "org.kde.StatusNotifierItem", "NewIcon", ":1.7", vec![]);
    let (_, reqs) = app.handle(&new_icon, None).unwrap();
    assert!(matches!(&reqs[..], [AppRequest::RequestProps { destination }] if destination == "org.app"));
    let updated = message(MessageType::Signal, "/MenuBar", "com.canonical.dbusmenu", "LayoutUpdated", ":1.7", vec![]);
    let (_, reqs) = app.handle(&updated, None).unwrap();
    assert!(matches!(&reqs[..], [AppRequest::GetLayout { path, .. }] if path == "/MenuBar"));
    let mut bad = message(MessageType::MethodReturn, "/", "", "", ":1.7", vec![IncomingValue::UInt32(1)]);
    bad.reply_serial = Some(40);
    assert_eq!(app.handle(&bad, None).unwrap_err(), DBusError::MissingValue);
    let reqs = app.reset();
    assert_eq!(reqs.len(), 4);
}

#[test]
fn clicks() {
    let mut app = App::new(Service::new(":1.7".to_string(), "org.app".to_string()));
    app.menu = "/MenuBar".to_string();
    match app.trigger(12, 1_700_000_000) {
        Ok(AppRequest::Event { id, timestamp, destination, path }) => {
            assert_eq!((id, timestamp), (12, 1_700_000_000));
            assert_eq!(destination, "org.app");
            assert_eq!(path, "/MenuBar");
        },
        other => panic!("unexpected {other:?}"),
    }
    assert_eq!(app.trigger(1, -1).unwrap_err(), EncodeError::ValueTooLong);
    assert_eq!(app.trigger(1, 1 << 32).unwrap_err(), EncodeError::ValueTooLong);
}

#[test]
fn watcher_requests() {
    let m = register(":1.9", "org.app");
    match KSNIRequest::parse(&m) {
        Ok((11, sender, KSNIRequest::NewItem { address })) => {
            assert_eq!(sender, ":1.9");
            assert_eq!(address, "org.app");
        },
        other => panic!("unexpected {other:?}"),
    }
    let other = message(MessageType::MethodCall, "/StatusNotifierWatcher", "org.kde.StatusNotifierWatcher", "RegisterStatusNotifierHost", ":1.9", vec![s("x")]);
    assert!(matches!(KSNIRequest::parse(&other), Ok((_, _, KSNIRequest::Other))));
    let wrong_path = message(MessageType::MethodCall, "/", "org.kde.StatusNotifierWatcher", "RegisterStatusNotifierItem", ":1.9", vec![]);
    assert_eq!(KSNIRequest::parse(&wrong_path).unwrap_err(), DBusError::UnexpectedHeader(HeaderField::Path));
    let empty = message(MessageType::MethodCall, "/StatusNotifierWatcher", "org.kde.StatusNotifierWatcher", "RegisterStatusNotifierItem", ":1.9", vec![]);
    assert_eq!(KSNIRequest::parse(&empty).unwrap_err(), DBusError::MissingValue);
    assert!(matches!(StatusNotifierWatcher::request_ksni_name(), OutgoingMessage::RequestName { name } if name == "org.kde.StatusNotifierWatcher"));
    let (svc, reply) = handle_incoming_request(&m, None);
    assert_eq!(svc.unwrap().name(), "org.app");
    assert!(matches!(reply, Some(OutgoingMessage::MethodReturn { reply_serial: 11, destination, body }) if destination == ":1.9" && body.is_empty()));
}

#[test]
fn introspection() {
    let mut i = StatusNotifierWatcherIntrospection::new();
    assert!(i.process_message(None).is_none());
    match i.process_message(Some((3, ":1.2".to_string(), IntrospectionRequest::Introspect { path: "/StatusNotifierWatcher".to_string() }))) {
        Some(OutgoingMessage::MethodReturn { reply_serial: 3, destination, body }) => {
            assert_eq!(destination, ":1.2");
            assert!(matches!(&body[..], [OutgoingValue::String(xml)] if *xml == ksni_introspection_xml()));
        },
        other => panic!("unexpected {other:?}"),
    }
    assert!(matches!(
        i.process_message(Some((4, ":1.2".to_string(), IntrospectionRequest::Introspect { path: "/nowhere".to_string() }))),
        Some(OutgoingMessage::NoSuchMethod { reply_serial: 4, .. })
    ));
    let get = IntrospectionRequest::GetProperty {
        path: "/StatusNotifierWatcher".to_string(),
        interface: "org.kde.StatusNotifierWatcher".to_string(),
        property_name: "ProtocolVersion".to_string(),
    };
    match i.process_message(Some((5, ":1.2".to_string(), get))) {
        Some(OutgoingMessage::MethodReturn { body, .. }) => {
            assert!(matches!(&body[..], [OutgoingValue::Variant(v)] if matches!(**v, OutgoingValue::Int32(42))));
        },
        other => panic!("unexpected {other:?}"),
    }
    let all = IntrospectionRequest::GetAllProperties {
        path: "/StatusNotifierWatcher".to_string(),
        interface: "org.kde.StatusNotifierWatcher".to_string(),
    };
    match i.process_message(Some((6, ":1.2".to_string(), all))) {
        Some(OutgoingMessage::MethodReturn { body, .. }) => {
            assert!(matches!(&body[..], [OutgoingValue::Array(_, entries)] if entries.len() == 3));
        },
        other => panic!("unexpected {other:?}"),
    }
    assert!(root_introspection_xml().contains("<node name=\"StatusNotifierWatcher\">"));
    assert!(ksni_introspection_xml().starts_with("\n\n<!DOCTYPE node"));
}

#[test]
fn watcher_record() {
    let mut w = Watcher::new();
    assert!(w.pop_new_item().is_none());
    w.register_status_notifier_item("/item".to_string());
    assert_eq!(w.pop_new_item().as_deref(), Some("/item"));
    assert!(w.pop_new_item().is_none());
    assert_eq!(w.protocol_version(), 42);
    assert!(w.is_status_notifier_host_registered());
    assert!(w.registered_status_notifier_items().is_empty());
}

#[test]
fn registry_of_entries() {
    let mut r: Registry<u32> = Registry::new();
    assert_eq!(r.app_added(Item { id: "a".to_string() }, 1), vec![1]);
    assert_eq!(r.app_added(Item { id: "b".to_string() }, 2), vec![1, 2]);
    assert_eq!(r.app_added(Item { id: "a".to_string() }, 3), vec![3, 2]);
    assert_eq!(r.find("b").map(|i| i.id.clone()), Some("b".to_string()));
    assert_eq!(r.app_removed("a".to_string()), vec![2]);
    assert!(r.find("a").is_none());
    assert_eq!(r.app_removed("zzz".to_string()), vec![2]);
    assert_eq!(r.as_event(), vec![2]);
}

#[test]
fn tray_host_registration_and_departure() {
    let (mut tray, out) = Tray::new();
    assert!(matches!(&out[1], OutgoingMessage::AddMatch { rule } if rule.contains("member='NameOwnerChanged'")));
    let (events, reply, reqs, err) = tray.try_handle(&register(":1.9", "org.app"), None, None);
    assert!(events.is_empty() && err.is_none());
    assert!(reply.is_some());
    assert_eq!(reqs.len(), 1);
    assert_eq!(reqs[0].name, "org.app");
    let from_app = message(MessageType::MethodReturn, "/", "", "", ":1.9", vec![]);
    let (events, _, reqs, err) = tray.try_handle(&from_app, None, Some(PropertyValue::Menu("/M".to_string())));
    assert!(events.is_empty() && err.is_none());
    assert!(matches!(&reqs[0].requests[0], AppRequest::GetLayout { path, .. } if path == "/M"));
    tray.layout_requested(":1.9", "org.app", 77);
    let (_, _, _, _) = tray.try_handle(&from_app, None, Some(PropertyValue::IconName("icon".to_string())));
    let root = IncomingValue::Struct(vec![
        IncomingValue::Int32(0),
        IncomingValue::Array(CompleteType::Other, vec![]),
        IncomingValue::Array(CompleteType::Other, vec![]),
    ]);
    let mut reply = message(MessageType::MethodReturn, "/", "", "", ":1.9", vec![IncomingValue::UInt32(1), root]);
    reply.reply_serial = Some(77);
    let (events, _, _, err) = tray.try_handle(&reply, None, None);
    assert!(err.is_none());
    assert!(matches!(&events[..], [HostEvent::TrayAppAdded { service, items, icon: TrayIcon::Name { .. } }] if service == "org.app" && items.is_empty()));
    match tray.try_trigger("org.app**5", 1000) {
        Ok(Some(AppRequest::Event { id: 5, path, .. })) => assert_eq!(path, "/M"),
        other => panic!("unexpected {other:?}"),
    }
    assert!(matches!(tray.try_trigger("unknown**5", 1000), Ok(None)));
    assert!(matches!(tray.try_trigger("garbage", 1000), Ok(None)));
    let mut gone = message(MessageType::Signal, "/org/freedesktop/DBus", "org.freedesktop.DBus", "NameOwnerChanged", "org.freedesktop.DBus", vec![s(":1.9"), s(":1.9"), s("")]);
    gone.destination = None;
    let (events, _, reqs, err) = tray.try_handle(&gone, None, None);
    assert!(err.is_none());
    assert!(matches!(&events[..], [HostEvent::TrayAppRemoved { service }] if service == ":1.9"));
    assert_eq!(reqs[0].requests.len(), 4);
    assert!(matches!(tray.try_trigger("org.app**5", 1000), Ok(None)));
}

#[test]
fn one_shot_properties() {
    let mut app = TrayApp::new(":1.3".to_string());
    let req = app.init();
    assert_eq!(req.destination, ":1.3");
    assert_eq!(req.path, "/StatusNotifierItem");
    assert_eq!(req.interface, "org.kde.StatusNotifierItem");
    let entry = |k: &str, v: IncomingValue| IncomingValue::DictEntry(Box::new(s(k)), Box::new(IncomingValue::Variant(Box::new(v))));
    let sv = CompleteType::DictEntry(Box::new(CompleteType::String), Box::new(CompleteType::Variant));
    let pix_t = CompleteType::Struct(vec![CompleteType::Int32, CompleteType::Int32, CompleteType::Array(Box::new(CompleteType::Byte))]);
    let pixmap = IncomingValue::Array(pix_t, vec![IncomingValue::Struct(vec![
        IncomingValue::Int32(1),
        IncomingValue::Int32(2),
        IncomingValue::Array(CompleteType::Byte, vec![IncomingValue::Byte(7), IncomingValue::Byte(8)]),
    ])]);
    let body = vec![IncomingValue::Array(sv, vec![
        entry("Menu", IncomingValue::ObjectPath("/M".to_string())),
        entry("IconName", s("name")),
        entry("IconPixmap", pixmap),
    ])];
    let out = GetAllProps.try_process(&body).unwrap();
    assert_eq!(out.menu.as_deref(), Some("/M"));
    assert_eq!(out.icon_name.as_deref(), Some("name"));
    let p = out.icon_pixmap.unwrap();
    assert_eq!((p.w, p.h, p.bytes), (1, 2, vec![7, 8]));
    assert_eq!(GetAllProps.try_process(&vec![]).unwrap_err(), DBusError::UnexpectedValue);
    let wrong_type = vec![IncomingValue::Array(CompleteType::String, vec![])];
    assert_eq!(GetAllProps.try_process(&wrong_type).unwrap_err(), DBusError::UnexpectedValue);
}

#[test]
fn menu_items_are_values() {
    let t = TrayItem::new_regular(1, "s", "l");
    assert!(matches!(t, TrayItem::Regular { .. }));
}

fn bad_label_reply(sender: &str, serial: u32) -> IncomingMessage {
    let label = format!("{}é", "a".repeat(99));
    let entry = IncomingValue::Struct(vec![
        IncomingValue::Int32(1),
        IncomingValue::Array(CompleteType::Other, vec![IncomingValue::DictEntry(
            Box::new(s("label")),
            Box::new(IncomingValue::Variant(Box::new(s(&label)))),
        )]),
        IncomingValue::Array(CompleteType::Other, vec![]),
    ]);
    let root = IncomingValue::Struct(vec![
        IncomingValue::Int32(0),
        IncomingValue::Array(CompleteType::Other, vec![]),
        IncomingValue::Array(CompleteType::Other, vec![IncomingValue::Variant(Box::new(entry))]),
    ]);
    let mut m = message(MessageType::MethodReturn, "/", "", "", sender, vec![IncomingValue::UInt32(1), root]);
    m.reply_serial = Some(serial);
    m
}

#[test]
fn other_senders_are_ignored_whatever_their_labels() {
    let mut app = App::new(Service::new(":1.7".to_string(), "org.app".to_string()));
    app.layout_requested(40);
    let foreign = bad_label_reply(":1.8", 40);
    assert!(app.handle_is_safe(&foreign, &None));
    let (e, reqs) = app.handle(&foreign, None).unwrap();
    assert!(e.is_none() && reqs.is_empty());
    let own = bad_label_reply(":1.7", 40);
    assert!(!app.handle_is_safe(&own, &None));
    assert!(app.handle_is_safe(&own, &Some(PropertyValue::IconName("x".to_string()))));
    let mut other_serial = bad_label_reply(":1.7", 41);
    other_serial.reply_serial = Some(41);
    assert!(app.handle_is_safe(&other_serial, &None));
}

#[test]
fn tray_checks_that_handling_ends_normally() {
    let (mut tray, _) = Tray::new();
    let reg = register(":1.7", "org.app");
    assert!(tray.handle_is_safe(&reg, &None));
    let _ = tray.try_handle(&reg, None, None);
    let foreign = bad_label_reply(":1.8", 40);
    assert!(tray.handle_is_safe(&foreign, &None));
    let (events, _, _, err) = tray.try_handle(&foreign, None, None);
    assert!(events.is_empty() && err.is_none());
}
