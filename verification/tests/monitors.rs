use layer_shell_io::bus::{address_path, DBusState, SessionDBus, SystemDBus};
use layer_shell_io::time::Time;
use layer_shell_io::dbus::{DBusError, HeaderField, IncomingValue};
use layer_shell_io::nm::{to_io_event, IoEvent, NMEvent};
use layer_shell_io::pw::{set_muted, set_volume, InternalCommand, PWEvent, PWState, SoundEvent as PwSoundEvent};
use layer_shell_io::session::Session;
use layer_shell_io::sound::{MuteChanged, Muted, PropertiesChanged, Sound, SoundEvent, SoundProperty, State, Volume, VolumeChanged};
use layer_shell_io::weather::{WeatherCode, WeatherData, Weather};

fn nm_frame(kind: u8) -> [u8; 32] {
    let mut b = [0u8; 32];
    b[0] = kind;
    b
}

#[test]
fn nm_speeds() {
    let mut b = nm_frame(1);
    b[8..16].copy_from_slice(&123_456u64.to_be_bytes());
    assert!(matches!(NMEvent::deserialize(b), Ok(NMEvent::UploadSpeed { bytes_per_sec: 123_456 })));
    let mut b = nm_frame(2);
    b[8..16].copy_from_slice(&42u64.to_be_bytes());
    let e = NMEvent::deserialize(b).unwrap();
    assert!(matches!(e, NMEvent::DownloadSpeed { bytes_per_sec: 42 }));
    assert!(matches!(to_io_event(e), IoEvent::DownloadSpeed { bytes_per_sec: 0 }));
    assert!(matches!(to_io_event(NMEvent::UploadSpeed { bytes_per_sec: 5_000 }), IoEvent::UploadSpeed { bytes_per_sec: 5_000 }));
    assert!(matches!(to_io_event(NMEvent::UploadSpeed { bytes_per_sec: 4_999 }), IoEvent::UploadSpeed { bytes_per_sec: 0 }));
}

#[test]
fn nm_ssid() {
    let mut b = nm_frame(3);
    b[1] = 87;
    b[4..8].copy_from_slice(&4u32.to_be_bytes());
    b[8..12].copy_from_slice(b"home");
    match NMEvent::deserialize(b) {
        Ok(NMEvent::SsidAndStrength { ssid, strength }) => {
            assert_eq!(ssid, "home");
            assert_eq!(strength, 87);
        },
        _ => panic!("expected an SSID"),
    }
    let mut long = nm_frame(3);
    long[4..8].copy_from_slice(&25u32.to_be_bytes());
    assert!(NMEvent::deserialize(long).is_err());
    let mut bad = nm_frame(3);
    bad[4..8].copy_from_slice(&2u32.to_be_bytes());
    bad[8] = 0xff;
    bad[9] = 0xfe;
    assert!(NMEvent::deserialize(bad).is_err());
    assert!(NMEvent::deserialize(nm_frame(0)).is_err());
    assert!(NMEvent::deserialize(nm_frame(4)).is_err());
}

#[test]
fn pw_events() {
    assert_eq!(PWEvent::deserialize([1, 55]), Ok(PWEvent::Volume(55)));
    assert_eq!(PWEvent::deserialize([2, 1]), Ok(PWEvent::Mute(true)));
    assert_eq!(PWEvent::deserialize([2, 0]), Ok(PWEvent::Mute(false)));
    assert_eq!(PWEvent::deserialize([2, 2]), Err(()));
    assert_eq!(PWEvent::deserialize([3, 0]), Err(()));
}

#[test]
fn pw_first_complete_state_is_held_back() {
    let mut s = PWState::new();
    assert_eq!(s.on_event(PWEvent::Volume(10)), None);
    assert_eq!(s.on_event(PWEvent::Mute(false)), None);
    assert_eq!(s.on_event(PWEvent::Volume(20)), Some(PwSoundEvent { volume: 20, muted: false }));
    assert_eq!(s.on_event(PWEvent::Mute(true)), Some(PwSoundEvent { volume: 20, muted: true }));
    assert_eq!(s.events_left_to_drop, 0);
}

#[test]
fn pw_commands() {
    assert_eq!(set_muted(true), InternalCommand::SetMuted(true));
    assert_eq!(set_muted(true).try_exec(), (None, Some(true)));
    let bits = 0.5f32.to_bits();
    assert_eq!(set_volume(bits).try_exec(), (Some(bits), None));
}

#[test]
fn session_commands() {
    assert_eq!(Session::lock(), "exec hyprlock");
    assert_eq!(Session::reboot(), "exec systemctl reboot");
    assert_eq!(Session::shutdown(), "exec systemctl poweroff");
    assert_eq!(Session::logout(), "exit");
    assert_eq!(Session::change_theme(), "exec ~/.config/hypr/wallpaper-change.sh");
}

#[test]
fn sound_state() {
    let mut s = State::new();
    assert_eq!(s.got(Some(30), None), None);
    assert_eq!(s, State::Partial(Some(30), None));
    assert_eq!(s.got(None, Some(false)), None);
    assert_eq!(s, State::Full(30, false));
    assert_eq!(s.got(Some(30), Some(false)), None);
    assert_eq!(s.got(Some(31), None), Some(SoundEvent { volume: 31, muted: false }));
    assert_eq!(s.got(None, Some(true)), Some(SoundEvent { volume: 31, muted: true }));
}

#[test]
fn sound_properties() {
    assert_eq!(Volume::map(&IncomingValue::UInt32(99)), Ok(100));
    assert_eq!(Volume::map(&IncomingValue::UInt32(42)), Ok(42));
    assert_eq!(Volume::map(&IncomingValue::Bool(true)), Err(DBusError::UnexpectedValue));
    assert_eq!(Muted::map(&IncomingValue::Bool(true)), Ok(true));
    assert_eq!(Muted::map(&IncomingValue::UInt32(1)), Err(DBusError::UnexpectedValue));
}

#[test]
fn sound_restarts_on_even_ticks() {
    let mut s = Sound::new();
    assert_eq!(s.start(), vec![SoundProperty::Volume, SoundProperty::Muted]);
    assert!(s.tick(2).is_empty());
    s.healthy = false;
    assert!(s.tick(3).is_empty());
    assert!(!s.healthy);
    assert_eq!(s.tick(4), vec![SoundProperty::Volume, SoundProperty::Muted]);
    assert!(s.healthy);
    assert_eq!(s.handle(Some(5), Some(false)), None);
    assert_eq!(s.handle(Some(6), None), Some(SoundEvent { volume: 6, muted: false }));
}

fn changed(path: &str, interface: &str, name: &str, value: IncomingValue) -> PropertiesChanged {
    PropertiesChanged { path: path.to_string(), interface: interface.to_string(), changes: vec![(name.to_string(), value)] }
}

#[test]
fn sound_changes() {
    let c = changed("/org/local/PipewireDBus", "org.local.PipewireDBus", "Muted", IncomingValue::Bool(true));
    assert_eq!(MuteChanged::try_from(&c), Ok(MuteChanged { muted: true }));
    assert_eq!(VolumeChanged::try_from(&c), Err(DBusError::MissingProperty));
    let c = changed("/org/local/PipewireDBus", "org.local.PipewireDBus", "Volume", IncomingValue::UInt32(12));
    assert_eq!(VolumeChanged::try_from(&c), Ok(VolumeChanged { volume: 12 }));
    let c = changed("/other", "org.local.PipewireDBus", "Volume", IncomingValue::UInt32(12));
    assert_eq!(VolumeChanged::try_from(&c), Err(DBusError::UnexpectedHeader(HeaderField::Path)));
    let c = changed("/org/local/PipewireDBus", "other", "Volume", IncomingValue::UInt32(12));
    assert_eq!(VolumeChanged::try_from(&c), Err(DBusError::UnexpectedHeader(HeaderField::Interface)));
    let c = changed("/org/local/PipewireDBus", "org.local.PipewireDBus", "Volume", IncomingValue::Bool(false));
    assert_eq!(VolumeChanged::try_from(&c), Err(DBusError::UnexpectedValue));
}

#[test]
fn weather_codes() {
    assert_eq!(WeatherCode::deserialize(0), WeatherCode::ClearSky);
    assert_eq!(WeatherCode::deserialize(45), WeatherCode::FogNormal);
    assert_eq!(WeatherCode::deserialize(99), WeatherCode::ThunderstormWithHailHeavy);
    assert_eq!(WeatherCode::deserialize(4), WeatherCode::Unknown);
    assert_eq!(WeatherCode::deserialize(255), WeatherCode::Unknown);
}

#[test]
fn weather_report() {
    let mut b = [0u8; 312];
    b[0..4].copy_from_slice(&21.5f32.to_be_bytes());
    b[4] = 3;
    for k in 0..10 {
        let off = 8 + 16 * k;
        b[off..off + 8].copy_from_slice(&(1_700_000_000i64 + 3600 * k as i64).to_be_bytes());
        b[off + 8..off + 12].copy_from_slice(&(k as f32).to_be_bytes());
        b[off + 12] = 61;
    }
    for k in 0..6 {
        let off = 168 + 24 * k;
        b[off..off + 8].copy_from_slice(&(-(k as i64)).to_be_bytes());
        b[off + 8..off + 12].copy_from_slice(&(-1.0f32).to_be_bytes());
        b[off + 12..off + 16].copy_from_slice(&(30.0f32).to_be_bytes());
        b[off + 16] = 95;
    }
    let d = WeatherData::deserialize(&b);
    assert_eq!(f32::from_bits(d.current.t_bits), 21.5);
    assert_eq!(d.current.code, WeatherCode::Overcast);
    assert_eq!(d.hourly[9].unix_seconds, 1_700_000_000 + 3600 * 9);
    assert_eq!(f32::from_bits(d.hourly[4].temperature_bits), 4.0);
    assert_eq!(d.hourly[0].code, WeatherCode::RainSlight);
    assert_eq!(d.daily[5].unix_seconds, -5);
    assert_eq!(f32::from_bits(d.daily[2].temperature_min_bits), -1.0);
    assert_eq!(f32::from_bits(d.daily[2].temperature_max_bits), 30.0);
    assert_eq!(d.daily[0].code, WeatherCode::Thunderstorm);
    let e = Weather::new().satisfy(&b);
    assert_eq!(f32::from_bits(e.temperature_bits), 21.5);
    assert_eq!(e.daily_forecast[3].code, WeatherCode::Thunderstorm);
}

#[test]
fn bus_addresses() {
    assert_eq!(address_path(b"unix:path=/run/user/1000/bus"), Some(&b"/run/user/1000/bus"[..]));
    assert_eq!(address_path(b"unix:path=/tmp/x=y"), Some(&b"/tmp/x"[..]));
    assert_eq!(address_path(b"nothing"), None);
    assert_eq!(SessionDBus::address(b"unix:path=/a"), Some(&b"/a"[..]));
    assert_eq!(SystemDBus::address(None), Some(&b"/var/run/dbus/system_bus_socket"[..]));
    assert_eq!(SystemDBus::address(Some(b"unix:path=/b")), Some(&b"/b"[..]));
    assert_eq!(SystemDBus::address(Some(b"bad")), None);
}

#[test]
fn fresh_bus_connections_have_yet_to_open_a_socket() {
    assert_eq!(SessionDBus::new().state, DBusState::CanSocket);
    assert_eq!(SystemDBus::new().state, DBusState::CanSocket);
}

#[test]
fn the_clock_ticks_every_second() {
    let _clock = Time::new();
    assert_eq!(Time::INTERVAL, 1);
}
