use vstd::prelude::*;

pub mod bus;
pub mod dbus;
pub mod dbusmenu;
pub mod ksni;
pub mod network;
pub mod pipewire;
pub mod niri;
pub mod nm;
pub mod pw;
pub mod session;
pub mod sni_app;
pub mod sound;
pub mod text;
pub mod time;
pub mod weather;
pub mod wire;
pub mod tray;
pub mod tray_encode;
pub mod tray_app;
pub mod tray_host;
pub mod watcher;

verus! {
} // verus!
