//! The events of the network monitor: their fixed-size wire form, and what
//! the bar shows of them.
use vstd::prelude::*;
use vstd::string::StringExecFns;
use vstd::string::StringSliceAdditionalSpecFns;
use vstd::utf8::{decode_utf8, valid_utf8};
use crate::wire::{be_u32, be_u32_at, be_u64, be_u64_at, utf8_str};

verus! {

/// An event of the network monitor.
#[derive(Debug)]
pub enum NMEvent {
    UploadSpeed { bytes_per_sec: u64 },
    DownloadSpeed { bytes_per_sec: u64 },
    SsidAndStrength { ssid: String, strength: u8 },
}

/// The model of an event.
pub enum NMEventModel {
    UploadSpeed { bytes_per_sec: u64 },
    DownloadSpeed { bytes_per_sec: u64 },
    SsidAndStrength { ssid: Seq<char>, strength: u8 },
}

/// The model of an event.
pub open spec fn nm_event_model(e: NMEvent) -> NMEventModel {
    match e {
        NMEvent::UploadSpeed { bytes_per_sec } => NMEventModel::UploadSpeed { bytes_per_sec },
        NMEvent::DownloadSpeed { bytes_per_sec } => NMEventModel::DownloadSpeed { bytes_per_sec },
        NMEvent::SsidAndStrength { ssid, strength } => NMEventModel::SsidAndStrength { ssid: ssid@, strength },
    }
}

/// The size of an event on the wire.
pub const NM_EVENT_SERIALIZED_LENGTH: usize = 32;

/// The event that 32 bytes encode: byte 0 is the kind (1 upload, 2 download,
/// 3 network name and signal strength). Speeds are the big-endian `u64` at
/// byte 8. The name is UTF-8 text at byte 8 whose length is the big-endian
/// `u32` at byte 4, at most 24 bytes; the strength is byte 1. Anything else is
/// refused.
pub open spec fn spec_nm_event(b: Seq<u8>) -> Option<NMEventModel> {
    if b[0] == 1 {
        Some(NMEventModel::UploadSpeed { bytes_per_sec: be_u64(b.subrange(8, 16)) })
    } else if b[0] == 2 {
        Some(NMEventModel::DownloadSpeed { bytes_per_sec: be_u64(b.subrange(8, 16)) })
    } else if b[0] == 3 {
        let len = be_u32(b.subrange(4, 8)) as int;
        if len > 24 {
            None
        } else {
            let text = b.subrange(8, 8 + len);
            if valid_utf8(text) {
                Some(NMEventModel::SsidAndStrength { ssid: decode_utf8(text), strength: b[1] })
            } else {
                None
            }
        }
    } else {
        None
    }
}

impl NMEvent {
    /// Decodes an event, as `spec_nm_event` says.
    pub fn deserialize(buf: [u8; 32]) -> (r: Result<NMEvent, ()>)
        ensures
            match r {
                Ok(e) => spec_nm_event(buf@) == Some(nm_event_model(e)),
                Err(()) => spec_nm_event(buf@) is None,
            },
    {
        let b = buf.as_slice();
        if b[0] == 1 {
            Ok(NMEvent::UploadSpeed { bytes_per_sec: be_u64_at(b, 8) })
        } else if b[0] == 2 {
            Ok(NMEvent::DownloadSpeed { bytes_per_sec: be_u64_at(b, 8) })
        } else if b[0] == 3 {
            let len = be_u32_at(b, 4);
            if len > 24 {
                return Err(());
            }
            let len = len as usize;
            let text = vstd::slice::slice_subrange(b, 8, 8 + len);
            match utf8_str(text) {
                Some(s) => {
                    proof {
                        vstd::utf8::encode_utf8_decode_utf8(s@);
                    }
                    Ok(NMEvent::SsidAndStrength { ssid: String::from_str(s), strength: b[1] })
                },
                None => Err(()),
            }
        } else {
            Err(())
        }
    }
}

/// Speeds below this many bytes per second are shown as zero.
pub const SPEED_THRESHOLD: u64 = 5_000;

/// What the bar is told of a network event.
#[derive(Debug)]
pub enum IoEvent {
    UploadSpeed { bytes_per_sec: u64 },
    DownloadSpeed { bytes_per_sec: u64 },
    NetworkSsidAndStrength { ssid: String, strength: u8 },
}

/// The model of what the bar is told: speeds below the threshold become
/// zero; names and strengths pass unchanged.
pub open spec fn spec_io_event(e: NMEventModel) -> NMEventModel {
    match e {
        NMEventModel::UploadSpeed { bytes_per_sec } => NMEventModel::UploadSpeed {
            bytes_per_sec: if bytes_per_sec < SPEED_THRESHOLD { 0 } else { bytes_per_sec },
        },
        NMEventModel::DownloadSpeed { bytes_per_sec } => NMEventModel::DownloadSpeed {
            bytes_per_sec: if bytes_per_sec < SPEED_THRESHOLD { 0 } else { bytes_per_sec },
        },
        NMEventModel::SsidAndStrength { ssid, strength } => NMEventModel::SsidAndStrength { ssid, strength },
    }
}

/// The model of a bar event, in the terms of the monitor's events.
pub open spec fn io_event_model(e: IoEvent) -> NMEventModel {
    match e {
        IoEvent::UploadSpeed { bytes_per_sec } => NMEventModel::UploadSpeed { bytes_per_sec },
        IoEvent::DownloadSpeed { bytes_per_sec } => NMEventModel::DownloadSpeed { bytes_per_sec },
        IoEvent::NetworkSsidAndStrength { ssid, strength } => NMEventModel::SsidAndStrength { ssid: ssid@, strength },
    }
}

/// Turns a monitor event into what the bar is told, as `spec_io_event` says.
pub fn to_io_event(event: NMEvent) -> (r: IoEvent)
    ensures
        io_event_model(r) == spec_io_event(nm_event_model(event)),
{
    match event {
        NMEvent::UploadSpeed { bytes_per_sec } => IoEvent::UploadSpeed {
            bytes_per_sec: if bytes_per_sec < SPEED_THRESHOLD { 0 } else { bytes_per_sec },
        },
        NMEvent::DownloadSpeed { bytes_per_sec } => IoEvent::DownloadSpeed {
            bytes_per_sec: if bytes_per_sec < SPEED_THRESHOLD { 0 } else { bytes_per_sec },
        },
        NMEvent::SsidAndStrength { ssid, strength } => IoEvent::NetworkSsidAndStrength { ssid, strength },
    }
}

/// A speed reaches the bar in the direction it was measured, with the
/// number of bytes per second it carried when that is at least the
/// threshold, and as zero below it; a network name and strength reach it
/// unchanged.
pub proof fn lemma_io_event_keeps_speeds(e: NMEventModel)
    ensures
        match e {
            NMEventModel::UploadSpeed { bytes_per_sec } => {
                &&& bytes_per_sec >= SPEED_THRESHOLD ==> spec_io_event(e) == NMEventModel::UploadSpeed { bytes_per_sec }
                &&& bytes_per_sec < SPEED_THRESHOLD ==> spec_io_event(e) == NMEventModel::UploadSpeed { bytes_per_sec: 0 }
            },
            NMEventModel::DownloadSpeed { bytes_per_sec } => {
                &&& bytes_per_sec >= SPEED_THRESHOLD ==> spec_io_event(e) == NMEventModel::DownloadSpeed { bytes_per_sec }
                &&& bytes_per_sec < SPEED_THRESHOLD ==> spec_io_event(e) == NMEventModel::DownloadSpeed { bytes_per_sec: 0 }
            },
            NMEventModel::SsidAndStrength { .. } => spec_io_event(e) == e,
        },
{
}

} // verus!
