use layer_shell_io::niri::{Buffer, Niri, NiriEvent};
use layer_shell_io::pipewire::{is_default, on_metadata_change, parse_audio_sink_changed, route_changed, PodValue, RouteError, Store, SPA_PARAM_ROUTE_DEVICE, SPA_PARAM_ROUTE_INDEX};
use layer_shell_io::tray::{read_i32, read_u32, trigger_request, Tray, TrayFrameError, TrayIoEvent};

#[test]
fn niri_lines_are_split() {
    let mut b = Buffer::new();
    let events = b.push(b"{\"KeyboardLayoutSwitched\":{\"idx\":1}}\n{\"Other\":{}}\n{\"Keyboard").unwrap();
    assert_eq!(events.len(), 1);
    assert!(matches!(events[0], NiriEvent::KeyboardLayoutSwitched { idx: 1 }));
    assert_eq!(b.queue, b"{\"Keyboard".to_vec());
    let events = b
        .push(b"LayoutsChanged\":{\"keyboard_layouts\":{\"names\":[\"English (US)\",\"Polish\"],\"current_idx\":0}}}\n")
        .unwrap();
    assert!(b.queue.is_empty());
    match &events[..] {
        [NiriEvent::KeyboardLayoutsChanged { layout_names, current_idx }] => {
            assert_eq!(layout_names, &vec!["English (US)".to_string(), "Polish".to_string()]);
            assert_eq!(*current_idx, 0);
        },
        other => panic!("unexpected {other:?}"),
    }
}

#[test]
fn niri_bad_lines() {
    let mut b = Buffer::new();
    assert!(b.push(b"\xff\xfe\n").is_err());
    assert_eq!(b.queue, b"\xff\xfe\n".to_vec());
    assert!(NiriEvent::from_json(b"{\"KeyboardLayoutSwitched\":{\"idx\":-1}}").is_err());
    assert!(NiriEvent::from_json(b"{\"KeyboardLayoutSwitched\":{}}").is_err());
    assert!(matches!(NiriEvent::from_json(b"{\"WorkspacesChanged\":{}}"), Ok(None)));
    let eleven = "{\"KeyboardLayoutsChanged\":{\"keyboard_layouts\":{\"names\":[\"a\",\"b\",\"c\",\"d\",\"e\",\"f\",\"g\",\"h\",\"i\",\"j\",\"k\"],\"current_idx\":0}}}";
    match NiriEvent::from_json(eleven.as_bytes()) {
        Ok(Some(NiriEvent::KeyboardLayoutsChanged { layout_names, current_idx: 0 })) => assert_eq!(layout_names.len(), 11),
        other => panic!("unexpected {other:?}"),
    }
    let ten = "{\"KeyboardLayoutsChanged\":{\"keyboard_layouts\":{\"names\":[\"a\",\"b\",\"c\",\"d\",\"e\",\"f\",\"g\",\"h\",\"i\",\"j\"],\"current_idx\":9}}}";
    assert!(matches!(NiriEvent::from_json(ten.as_bytes()), Ok(Some(NiriEvent::KeyboardLayoutsChanged { current_idx: 9, .. }))));
}

#[test]
fn niri_language_names() {
    let mut n = Niri::new();
    assert!(n.process(b"{\"KeyboardLayoutSwitched\":{\"idx\":0}}\n").is_err());
    assert_eq!(n.process(b"{\"Other\":{}}\n{\"Keyboard"), Ok(None));
    let changed = b"LayoutsChanged\":{\"keyboard_layouts\":{\"names\":[\"English (US)\",\"Polish\",\"German\"],\"current_idx\":1}}}\n";
    assert_eq!(n.process(changed), Ok(Some("PL".to_string())));
    assert_eq!(n.layouts, vec!["English (US)".to_string(), "Polish".to_string(), "German".to_string()]);
    assert_eq!(n.process(b"{\"KeyboardLayoutSwitched\":{\"idx\":0}}\n"), Ok(Some("EN".to_string())));
    assert_eq!(n.process(b"{\"KeyboardLayoutSwitched\":{\"idx\":2}}\n"), Ok(Some("??".to_string())));
    assert!(n.process(b"{\"KeyboardLayoutSwitched\":{\"idx\":3}}\n").is_err());
    // Only the last index of a batch is shown.
    assert_eq!(
        n.process(b"{\"KeyboardLayoutSwitched\":{\"idx\":0}}\n{\"KeyboardLayoutSwitched\":{\"idx\":1}}\n"),
        Ok(Some("PL".to_string()))
    );
    // A bad line changes nothing but the stream.
    assert!(n.process(b"{\"KeyboardLayoutsChanged\":{\"keyboard_layouts\":{\"names\":[],\"current_idx\":0}}}\n{\"a\"\n").is_err());
    assert_eq!(n.layouts.len(), 3);
    assert_eq!(Niri::request(), b"\"EventStream\"\n");
}

#[test]
fn pipewire_default_device() {
    let mut store: Store<&str, &str, &str, u8> = Store::new();
    assert!(store.default_device().is_none());
    store.register_device(30, "speakers");
    store.register_sink(40, "alsa_output", 30, "sink-node");
    store.register_route(30, (2, 5));
    assert!(store.default_device().is_none());
    store.register_default_sink_name("alsa_output".to_string());
    assert_eq!(store.default_device(), Some((&"speakers", (2, 5))));
    store.register_sink(41, "alsa_output", 31, "other-node");
    assert!(store.default_device().is_none());
    store.register_device(31, "headphones");
    store.register_route(31, (0, 1));
    assert_eq!(store.default_device(), Some((&"headphones", (0, 1))));
    store.register_listener(31, 1);
    store.register_listener(31, 2);
    assert_eq!(store.listeners.get(&31), Some(&vec![1, 2]));
    store.register_meta(50, "meta");
    store.remove(31);
    assert!(store.default_device().is_none());
    assert!(store.listeners.get(&31).is_none());
}

#[test]
fn pipewire_routes_and_metadata() {
    let props = vec![(SPA_PARAM_ROUTE_INDEX, PodValue::Int(4)), (9, PodValue::Bool(true)), (SPA_PARAM_ROUTE_DEVICE, PodValue::Int(6))];
    assert_eq!(route_changed(&props), Ok((4, 6)));
    assert_eq!(route_changed(&vec![(SPA_PARAM_ROUTE_DEVICE, PodValue::Int(6))]), Err(RouteError::NoIndex));
    assert_eq!(route_changed(&vec![(SPA_PARAM_ROUTE_INDEX, PodValue::Int(6))]), Err(RouteError::NoDevice));
    assert_eq!(route_changed(&vec![(SPA_PARAM_ROUTE_INDEX, PodValue::Bool(false))]), Err(RouteError::NotAnInt));
    assert!(is_default(Some("default")));
    assert!(!is_default(Some("route-settings")));
    assert!(!is_default(None));
    assert_eq!(
        parse_audio_sink_changed(Some("default.audio.sink"), Some("{\"name\":\"alsa_output.pci\"}")),
        Some("alsa_output.pci".to_string())
    );
    assert_eq!(parse_audio_sink_changed(Some("default.audio.source"), Some("{\"name\":\"x\"}")), None);
    assert_eq!(parse_audio_sink_changed(Some("default.audio.sink"), Some("not json")), None);
    assert_eq!(parse_audio_sink_changed(None, Some("{\"name\":\"x\"}")), None);
    let mut store: Store<u8, u8, u8, u8> = Store::new();
    assert_eq!(on_metadata_change(&mut store, "default.audio.sink", "{\"name\":\"out\"}"), 0);
    assert_eq!(store.default_sink_name.as_deref(), Some("out"));
    on_metadata_change(&mut store, "other", "{\"name\":\"zzz\"}");
    assert_eq!(store.default_sink_name.as_deref(), Some("out"));
}

#[test]
fn click_requests_read_back() {
    let buf = trigger_request(0xdead_beef, -2);
    assert_eq!(buf, [0xde, 0xad, 0xbe, 0xef, 0xff, 0xff, 0xff, 0xfe]);
    let mut cur: &[u8] = &buf;
    assert_eq!(read_u32(&mut cur), Some(0xdead_beef));
    assert_eq!(read_i32(&mut cur), Some(-2));
    assert_eq!(Tray.wants_trigger(1, 2), [0, 0, 0, 1, 0, 0, 0, 2]);
}

#[test]
fn tray_frames() {
    let mut frame = [0u8; 1785];
    frame[0] = 2;
    frame[1..5].copy_from_slice(&7u32.to_be_bytes());
    assert!(matches!(Tray.satisfy(&frame), Ok(TrayIoEvent::TrayAppRemoved { service: 7 })));
    frame[0] = 4;
    frame[5..9].copy_from_slice(&3u32.to_be_bytes());
    frame[9..12].copy_from_slice(b"app");
    match Tray.satisfy(&frame) {
        Ok(TrayIoEvent::TrayAppIconUpdated { service, icon }) => {
            assert_eq!(service, 7);
            assert_eq!(icon, "app");
        },
        _ => panic!("expected an icon update"),
    }
    frame[9] = 0xff;
    assert!(matches!(Tray.satisfy(&frame), Err(TrayFrameError::BadIcon(_))));
    frame[0] = 9;
    assert!(matches!(Tray.satisfy(&frame), Err(TrayFrameError::Malformed)));
}

#[test]
fn niri_layouts_changed_members() {
    match NiriEvent::parse_keyboard_layouts_changed("{\"keyboard_layouts\":{\"names\":[\"English (US)\",\"Polish\"],\"current_idx\":1}}") {
        Ok(NiriEvent::KeyboardLayoutsChanged { layout_names, current_idx }) => {
            assert_eq!(layout_names, vec!["English (US)".to_string(), "Polish".to_string()]);
            assert_eq!(current_idx, 1);
        },
        other => panic!("unexpected {other:?}"),
    }
    assert!(NiriEvent::parse_keyboard_layouts_changed("{\"keyboard_layouts\":{\"names\":[\"a\",1],\"current_idx\":0}}").is_err());
    assert!(NiriEvent::parse_keyboard_layouts_changed("{\"keyboard_layouts\":{\"names\":[\"a\"]}}").is_err());
    assert!(NiriEvent::parse_keyboard_layouts_changed("{\"keyboard_layouts\":{\"names\":[\"a\"],\"current_idx\":-2}}").is_err());
    assert!(NiriEvent::parse_keyboard_layouts_changed("{\"keyboard_layouts\":{\"current_idx\":0}}").is_err());
    assert!(NiriEvent::parse_keyboard_layouts_changed("[]").is_err());
    assert!(matches!(
        NiriEvent::parse_keyboard_layouts_changed("{\"keyboard_layouts\":{\"names\":[],\"current_idx\":0}}"),
        Ok(NiriEvent::KeyboardLayoutsChanged { current_idx: 0, .. })
    ));
}

#[test]
fn niri_layout_switched_members() {
    assert!(matches!(NiriEvent::parse_keyword_layout_switched("{\"idx\":3}"), Ok(NiriEvent::KeyboardLayoutSwitched { idx: 3 })));
    assert!(NiriEvent::parse_keyword_layout_switched("{\"idx\":\"3\"}").is_err());
    assert!(NiriEvent::parse_keyword_layout_switched("{\"idx\":1.5}").is_err());
    assert!(NiriEvent::parse_keyword_layout_switched("{}").is_err());
}

#[test]
fn niri_malformed_json_is_refused() {
    assert!(NiriEvent::from_json(b"{\"KeyboardLayoutsChanged\":t}").is_err());
    assert!(NiriEvent::from_json(b"{\"a\"").is_err());
    assert!(NiriEvent::from_json(b"\"").is_err());
    assert!(NiriEvent::from_json(b"[\"a\"").is_err());
    assert!(matches!(NiriEvent::from_json(b"[1,2]"), Ok(None)));
    let mut b = Buffer::new();
    assert!(b.push(b"{\"KeyboardLayoutSwitched\":{\"idx\":1}}\n{\"a\"\n").is_err());
    assert_eq!(b.queue, b"{\"KeyboardLayoutSwitched\":{\"idx\":1}}\n{\"a\"\n".to_vec());
}
