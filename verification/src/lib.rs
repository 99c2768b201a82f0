//! Client-side driver core for a grid controller that speaks an OSC-style
//! protocol over UDP: discovery-reply parsing, a latched 8x8 button bitmap,
//! and the per-tick drain/dispatch/resync loop. All socket I/O lives outside
//! this crate; the core works on plain message values.

use vstd::prelude::*;

mod discovery;
mod msg;
mod session;

pub use discovery::DeviceDescriptor;
pub use discovery::ParseError;
pub use discovery::device_reply_error;
pub use discovery::parse_device_reply;
pub use discovery::request_discovery;
pub use msg::Message;
pub use msg::OscArg;
pub use msg::Packet;
pub use session::GRID_SIZE;
pub use session::GridSession;
pub use session::SessionV;
pub use session::apply_key;
pub use session::apply_msg;
pub use session::apply_msgs;
pub use session::attach_state;
pub use session::cell;
pub use session::filled_latch;
pub use session::flip_cell;
pub use session::is_all_msg;
pub use session::is_key_msg;
pub use session::is_row_msg;
pub use session::is_sys_port_msg;
pub use session::key_in_range;
pub use session::lemma_attach_last_wins;
pub use session::lemma_out_of_range_ignored;
pub use session::lemma_toggle_idempotence;

verus! {

/// Command port of the local registration daemon.
pub const DAEMON_PORT: u16 = 12002;

/// Local port on which discovery replies are expected.
pub const DISCOVERY_REPLY_PORT: u16 = 12288;

/// Default local port for device button/tilt events.
pub const DEFAULT_EVENT_PORT: u16 = 13001;

} // verus!
