//! Verified core of the COSMIC Connect device plugins.
//!
//! Each module holds the data model, the parsers and serializers and the
//! decision logic of one plugin, with contracts stated over mathematical
//! models.  Everything that talks to the operating system (sockets, DBus,
//! PipeWire, the Wayland compositor, timers) lives in the `app/` crate,
//! which feeds plain values in and performs the actions handed back.
pub mod bytes;
pub mod capture;
pub mod b64;
pub mod bitrate;
pub mod clock;
pub mod encoding;
pub mod frame;
pub mod input;
pub mod notification;
pub mod phoneauth;
pub mod ping;
pub mod power;
pub mod procfs;
pub mod rfb;
pub mod runcommand;
pub mod screencapture;
pub mod screenshare;
pub mod screenshot;
pub mod share;
pub mod stream_frame;
pub mod systemmonitor;
pub mod systemvolume;
pub mod telephony;
pub mod text;
pub mod upower;
pub mod vnc;

use vstd::prelude::*;

verus! {

} // verus!
