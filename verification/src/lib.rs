//! Platform-independent core of the buttre input method: candidate lists,
//! the engine-action to IME-operation bridge, key routing for every backend,
//! method synchronisation rules and the small text formats the backends read.
//!
//! Nothing in this crate touches a window, a socket, the registry or the file
//! system: the hosts feed it plain values and carry out what it decides.

pub mod candidates;
pub mod text;
pub mod engine_bridge;
pub mod keysym;
pub mod input;
pub mod tsf_keys;
pub mod method_sync;
pub mod ibus_props;
pub mod ibus_engine;
pub mod wayland_v1;
pub mod ui;
pub mod tsf_registry;
pub mod tsf_session;
pub mod transport_claim;
pub mod kwin_ime;
pub mod backend_detect;
pub mod method_owner;
pub mod candidate_panel;
pub mod platform;
pub mod autostart;
pub mod watch;
pub mod tray_events;
pub mod explain;

use vstd::prelude::*;

verus! {

} // verus!
