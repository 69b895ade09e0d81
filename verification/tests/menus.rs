use layer_shell_io::dbus::{parse_name_owner_changed, CompleteType, DBusError, HeaderField, IncomingMessage, IncomingValue, MessageType};
use layer_shell_io::dbusmenu::{
    items_properties_updated_match_rule, layout_reply_is_safe, layout_updated_match_rule, parse_get_layout_reply, parse_item, parse_items,
    parse_items_properties_updated_signal, parse_layout_updated_signal, ItemOrSeparator, TrayItem, UuidError, VecOfTrayItems, UUID,
};
use layer_shell_io::ksni::{
    new_icon_match_rule, parse, parse_menu_and_icon, parse_new_icon_signal, AllPropsSubscription, TrayIcon,
};

fn s(v: &str) -> IncomingValue {
    IncomingValue::String(v.to_string())
}

fn prop(key: &str, value: IncomingValue) -> IncomingValue {
    IncomingValue::DictEntry(Box::new(s(key)), Box::new(IncomingValue::Variant(Box::new(value))))
}

fn array(xs: Vec<IncomingValue>) -> IncomingValue {
    IncomingValue::Array(CompleteType::Other, xs)
}

fn item(id: i32, props: Vec<IncomingValue>, children: Vec<IncomingValue>) -> IncomingValue {
    IncomingValue::Struct(vec![IncomingValue::Int32(id), array(props), array(children)])
}

fn entry(v: IncomingValue) -> IncomingValue {
    IncomingValue::Variant(Box::new(v))
}

fn signal(path: &str, interface: &str, member: &str, sender: &str) -> IncomingMessage {
    IncomingMessage {
        message_type: MessageType::Signal,
        serial: 9,
        reply_serial: None,
        path: Some(path.to_string()),
        interface: Some(interface.to_string()),
        member: Some(member.to_string()),
        destination: None,
        sender: Some(sender.to_string()),
        body: Some(vec![]),
    }
}

fn label_of(t: &TrayItem) -> &str {
    match t {
        TrayItem::Regular { label, .. }
        | TrayItem::Disabled { label, .. }
        | TrayItem::Checkbox { label, .. }
        | TrayItem::Radio { label, .. }
        | TrayItem::Nested { label, .. } => label,
        TrayItem::Section { .. } => "",
    }
}

#[test]
fn uuid_encode_and_decode() {
    assert_eq!(UUID::encode("org.app", 5), "org.app**5");
    assert_eq!(UUID::encode(":1.42", -7), ":1.42**-7");
    assert_eq!(UUID::decode("org.app**5"), Ok(("org.app".to_string(), 5)));
    assert_eq!(UUID::decode(":1.42**-7"), Ok((":1.42".to_string(), -7)));
    assert_eq!(UUID::decode("no separator"), Err(UuidError::NoSeparator));
    assert_eq!(UUID::decode("a**b**3"), Err(UuidError::BadId));
    assert_eq!(UUID::decode("a**"), Err(UuidError::BadId));
    assert_eq!(UUID::decode("**12"), Ok((String::new(), 12)));
    for (name, id) in [("nm-applet", 0), ("x", i32::MAX), ("ünïcode", i32::MIN)] {
        assert_eq!(UUID::decode(&UUID::encode(name, id)), Ok((name.to_string(), id)));
    }
}

#[test]
fn menu_items_of_each_kind() {
    let service = "org.app";
    let regular = item(1, vec![prop("label", s("Open"))], vec![]);
    match parse_item(service, &regular) {
        Ok(ItemOrSeparator::Item(TrayItem::Regular { id, uuid, label })) => {
            assert_eq!(id, 1);
            assert_eq!(uuid, "org.app**1");
            assert_eq!(label, "Open");
        },
        other => panic!("unexpected {other:?}"),
    }
    let hidden = item(2, vec![prop("visible", IncomingValue::Bool(false))], vec![]);
    assert!(matches!(parse_item(service, &hidden), Ok(ItemOrSeparator::Skip)));
    let sep = item(3, vec![prop("type", s("separator"))], vec![]);
    assert!(matches!(parse_item(service, &sep), Ok(ItemOrSeparator::Separator)));
    let disabled = item(4, vec![prop("enabled", IncomingValue::Bool(false)), prop("label", s("Off"))], vec![]);
    assert!(matches!(parse_item(service, &disabled), Ok(ItemOrSeparator::Item(TrayItem::Disabled { id: 4, .. }))));
    let check = item(5, vec![prop("toggle-type", s("checkmark")), prop("toggle-state", IncomingValue::Int32(1))], vec![]);
    assert!(matches!(parse_item(service, &check), Ok(ItemOrSeparator::Item(TrayItem::Checkbox { checked: true, .. }))));
    let radio = item(6, vec![prop("toggle-type", s("radio")), prop("toggle-state", IncomingValue::Int32(0))], vec![]);
    assert!(matches!(parse_item(service, &radio), Ok(ItemOrSeparator::Item(TrayItem::Radio { selected: false, .. }))));
    let nested = item(7, vec![prop("children-display", s("submenu")), prop("label", s("More"))], vec![entry(regular)]);
    match parse_item(service, &nested) {
        Ok(ItemOrSeparator::Item(TrayItem::Nested { children, label, .. })) => {
            assert_eq!(label, "More");
            assert_eq!(children.len(), 1);
        },
        other => panic!("unexpected {other:?}"),
    }
    let unknown = item(8, vec![prop("icon-name", s("x")), prop("shortcut", array(vec![]))], vec![]);
    assert!(matches!(parse_item(service, &unknown), Ok(ItemOrSeparator::Item(TrayItem::Regular { id: 8, .. }))));
}

#[test]
fn menu_item_errors() {
    let service = "org.app";
    assert_eq!(parse_item(service, &IncomingValue::Int32(1)).unwrap_err(), DBusError::UnexpectedValue);
    assert_eq!(parse_item(service, &IncomingValue::Struct(vec![])).unwrap_err(), DBusError::MissingValue);
    let two = IncomingValue::Struct(vec![IncomingValue::Int32(1), array(vec![])]);
    assert_eq!(parse_item(service, &two).unwrap_err(), DBusError::MissingValue);
    let bad_prop = item(1, vec![prop("visible", s("yes"))], vec![]);
    assert_eq!(parse_item(service, &bad_prop).unwrap_err(), DBusError::UnexpectedValue);
    let bad_child = item(1, vec![], vec![IncomingValue::Int32(3)]);
    assert_eq!(parse_item(service, &bad_child).unwrap_err(), DBusError::UnexpectedValue);
}

#[test]
fn long_labels_are_cut_to_a_hundred_bytes() {
    let long = "é".repeat(60);
    let it = item(1, vec![prop("label", s(&long))], vec![]);
    match parse_item("a", &it) {
        Ok(ItemOrSeparator::Item(t)) => {
            assert_eq!(label_of(&t).len(), 100);
            assert_eq!(label_of(&t), "é".repeat(50));
        },
        other => panic!("unexpected {other:?}"),
    }
}

#[test]
fn separators_make_sections() {
    let a = entry(item(1, vec![prop("label", s("a"))], vec![]));
    let b = entry(item(2, vec![prop("label", s("b"))], vec![]));
    let sep = entry(item(3, vec![prop("type", s("separator"))], vec![]));
    let c = entry(item(4, vec![prop("label", s("c"))], vec![]));
    let plain = parse_items("x", &vec![entry(item(1, vec![], vec![])), entry(item(2, vec![], vec![]))]).unwrap();
    assert_eq!(plain.len(), 2);
    assert!(matches!(plain[0], TrayItem::Regular { id: 1, .. }));
    let sections = parse_items("x", &vec![a, b, sep, c]).unwrap();
    assert_eq!(sections.len(), 2);
    match (&sections[0], &sections[1]) {
        (TrayItem::Section { children: first }, TrayItem::Section { children: second }) => {
            assert_eq!(first.len(), 2);
            assert_eq!(second.len(), 1);
            assert_eq!(label_of(&second[0]), "c");
        },
        other => panic!("unexpected {other:?}"),
    }
    assert!(parse_items("x", &vec![]).unwrap().is_empty());
    assert_eq!(parse_items("x", &vec![IncomingValue::Int32(1)]).unwrap_err(), DBusError::UnexpectedValue);
}

#[test]
fn get_layout_reply() {
    let root = IncomingValue::Struct(vec![IncomingValue::Int32(0), array(vec![]), array(vec![entry(item(1, vec![], vec![]))])]);
    let items = parse_get_layout_reply("svc", &vec![IncomingValue::UInt32(3), root]).unwrap();
    assert_eq!(items.len(), 1);
    assert_eq!(parse_get_layout_reply("svc", &vec![IncomingValue::UInt32(3)]).unwrap_err(), DBusError::MissingValue);
    assert_eq!(parse_get_layout_reply("svc", &vec![IncomingValue::UInt32(3), IncomingValue::Int32(1)]).unwrap_err(), DBusError::UnexpectedValue);
}

#[test]
fn item_builders() {
    let mut list = VecOfTrayItems::new();
    assert!(list.is_empty());
    list.push(TrayItem::new_regular(1, "svc", "One"));
    list.push(TrayItem::new_checkbox(2, "svc", "Two", true));
    assert!(!list.is_empty());
    let nested = TrayItem::new_nested(3, "svc", "Three", list);
    assert!(matches!(&nested, TrayItem::Nested { children, uuid, .. } if children.len() == 2 && uuid == "svc**3"));
    assert!(matches!(TrayItem::new_disabled(4, "svc", "x"), TrayItem::Disabled { id: 4, .. }));
    assert!(matches!(TrayItem::new_radio(5, "svc", "x", false), TrayItem::Radio { selected: false, .. }));
    assert!(matches!(TrayItem::new_section(VecOfTrayItems::new()), TrayItem::Section { children } if children.is_empty()));
}

#[test]
fn match_rules() {
    assert_eq!(
        layout_updated_match_rule(":1.5", "/MenuBar"),
        "type='signal',sender=':1.5',interface='com.canonical.dbusmenu',member='LayoutUpdated',path='/MenuBar'"
    );
    assert_eq!(
        items_properties_updated_match_rule(":1.5", "/MenuBar"),
        "type='signal',sender=':1.5',interface='com.canonical.dbusmenu',member='ItemsPropertiesUpdated',path='/MenuBar'"
    );
    assert_eq!(
        new_icon_match_rule(":1.5"),
        "type='signal',sender=':1.5',interface='org.kde.StatusNotifierItem',member='NewIcon',path='/StatusNotifierItem'"
    );
}

#[test]
fn signals() {
    let m = signal("/MenuBar", "com.canonical.dbusmenu", "LayoutUpdated", ":1.5");
    assert_eq!(parse_layout_updated_signal(&m, ":1.5", "/MenuBar"), Ok(()));
    assert_eq!(parse_layout_updated_signal(&m, ":1.6", "/MenuBar"), Err(DBusError::UnexpectedHeader(HeaderField::Sender)));
    assert_eq!(parse_layout_updated_signal(&m, ":1.5", "/Other"), Err(DBusError::UnexpectedHeader(HeaderField::Path)));
    assert_eq!(parse_items_properties_updated_signal(&m, ":1.5", "/MenuBar"), Err(DBusError::UnexpectedHeader(HeaderField::Member)));
    let mut call = m;
    call.message_type = MessageType::MethodCall;
    assert_eq!(parse_layout_updated_signal(&call, ":1.5", "/MenuBar"), Err(DBusError::UnexpectedMessageType));
    let mut no_sender = signal("/StatusNotifierItem", "org.kde.StatusNotifierItem", "NewIcon", ":1.5");
    assert_eq!(parse_new_icon_signal(&no_sender, ":1.5"), Ok(()));
    no_sender.sender = None;
    assert_eq!(parse_new_icon_signal(&no_sender, ":1.5"), Err(DBusError::MissingHeader(HeaderField::Sender)));
}

#[test]
fn name_owner_changed() {
    let mut m = signal("/org/freedesktop/DBus", "org.freedesktop.DBus", "NameOwnerChanged", "org.freedesktop.DBus");
    m.body = Some(vec![s(":1.9"), s(":1.9"), s("")]);
    assert_eq!(parse_name_owner_changed(&m).map(|a| a.clone()), Ok(":1.9".to_string()));
    m.body = Some(vec![s("org.app"), s(""), s(":1.9")]);
    assert_eq!(parse_name_owner_changed(&m).map(|a| a.clone()), Err(DBusError::UnexpectedValue));
    m.body = Some(vec![s("org.app")]);
    assert_eq!(parse_name_owner_changed(&m).map(|a| a.clone()), Err(DBusError::MissingValue));
    m.body = None;
    assert_eq!(parse_name_owner_changed(&m).map(|a| a.clone()), Err(DBusError::MissingBody));
}

#[test]
fn item_properties() {
    let pixmap = array(vec![IncomingValue::Struct(vec![
        IncomingValue::Int32(2),
        IncomingValue::Int32(1),
        array(vec![IncomingValue::Byte(1), IncomingValue::Byte(2)]),
    ])]);
    let props = vec![
        prop("Menu", IncomingValue::ObjectPath("/MenuBar".to_string())),
        prop("IconName", s("")),
        prop("IconPixmap", pixmap),
        prop("Title", s("ignored")),
    ];
    let u = parse(&props).unwrap();
    assert_eq!(u.menu.as_deref(), Some("/MenuBar"));
    match u.icon {
        Some(TrayIcon::Pixmap(p)) => {
            assert_eq!((p.width, p.height), (2, 1));
            assert_eq!(p.bytes, vec![1, 2]);
        },
        other => panic!("unexpected {other:?}"),
    }
    let named = parse(&vec![prop("IconName", s("nm-signal-75")), prop("IconPixmap", array(vec![]))]).unwrap();
    assert!(matches!(named.icon, Some(TrayIcon::Name { name }) if name == "nm-signal-75"));
    let path = parse(&vec![prop("IconName", s("/usr/share/icon.png"))]).unwrap();
    assert!(matches!(path.icon, Some(TrayIcon::Path { path }) if path == "/usr/share/icon.png"));
    assert!(parse(&vec![]).unwrap().icon.is_none());
    assert_eq!(parse(&vec![prop("Menu", s("/x"))]).unwrap_err(), DBusError::UnexpectedValue);
    let short = array(vec![IncomingValue::Struct(vec![IncomingValue::Int32(2)])]);
    assert_eq!(parse(&vec![prop("IconPixmap", short)]).unwrap_err(), DBusError::MissingValue);
    assert_eq!(TrayIcon::detect_name_or_path("/a").kind(), "path");
}

trait Kind {
    fn kind(&self) -> &'static str;
}

impl Kind for TrayIcon {
    fn kind(&self) -> &'static str {
        match self {
            TrayIcon::Path { .. } => "path",
            TrayIcon::Name { .. } => "name",
            TrayIcon::Pixmap(_) => "pixmap",
            TrayIcon::Unset => "unset",
        }
    }
}

#[test]
fn properties_changed_and_first_reply() {
    let sub = AllPropsSubscription;
    let body = vec![s("org.kde.StatusNotifierItem"), array(vec![prop("IconName", s("app"))])];
    let u = sub.try_process("/StatusNotifierItem", &body).unwrap();
    assert!(u.menu.is_none());
    assert!(matches!(u.icon, Some(TrayIcon::Name { .. })));
    assert_eq!(sub.try_process("/Other", &body).unwrap_err(), DBusError::UnexpectedHeader(HeaderField::Path));
    let wrong = vec![s("org.other"), array(vec![])];
    assert_eq!(sub.try_process("/StatusNotifierItem", &wrong).unwrap_err(), DBusError::UnexpectedValue);
    let reply = vec![array(vec![prop("Menu", IncomingValue::ObjectPath("/M".to_string())), prop("IconName", s("app"))])];
    let (menu, icon) = parse_menu_and_icon(&reply).unwrap();
    assert_eq!(menu, "/M");
    assert_eq!(icon.kind(), "name");
    let partial = vec![array(vec![prop("IconName", s("app"))])];
    assert_eq!(parse_menu_and_icon(&partial).unwrap_err(), DBusError::MissingProperty);
}

#[test]
fn layout_replies_that_would_end_the_program() {
    let bad = format!("{}é", "a".repeat(99));
    let reply = |entries: Vec<IncomingValue>| {
        vec![IncomingValue::UInt32(1), IncomingValue::Struct(vec![IncomingValue::Int32(0), array(vec![]), array(entries)])]
    };
    let good = || item(1, vec![prop("label", s("ok"))], vec![]);
    let cut_badly = || item(2, vec![prop("label", s(&bad))], vec![]);
    assert!(layout_reply_is_safe("svc", &reply(vec![entry(good())])));
    assert!(!layout_reply_is_safe("svc", &reply(vec![entry(cut_badly())])));
    let broken = item(3, vec![IncomingValue::Int32(7)], vec![]);
    assert!(layout_reply_is_safe("svc", &reply(vec![entry(broken), entry(cut_badly())])));
    let long_name = "n".repeat(1023);
    assert!(!layout_reply_is_safe(&long_name, &reply(vec![entry(good())])));
    assert!(layout_reply_is_safe(&"n".repeat(1021), &reply(vec![entry(item(7, vec![], vec![]))])));
    assert!(!layout_reply_is_safe(&"n".repeat(1021), &reply(vec![entry(item(10, vec![], vec![]))])));
}
