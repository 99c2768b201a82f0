//! Discovery handshake with the local registration daemon: building the
//! list request and parsing device-descriptor replies.
//!
//! The daemon answers a `/serialosc/list` request with one `/serialosc/device`
//! message per attached device, carrying `(serial, device_type, command_port)`.
//! A malformed reply is rejected with a typed error, never a panic.

use vstd::prelude::*;

use crate::msg::Message;
use crate::msg::OscArg;

verus! {

/// One discovered device: its serial id, the host it answers on, and the
/// port its command socket listens on. Consumed by `GridSession::attach`.
#[derive(Clone, Debug, PartialEq, Eq)]
pub struct DeviceDescriptor {
    /// Serial id reported by the daemon.
    pub id: String,
    /// Host the device's command port lives on (the reply's origin host).
    pub host: String,
    /// Port of the device's command socket.
    pub command_port: u16,
}

/// Why a discovery reply was rejected.
#[derive(Clone, Copy, Debug, PartialEq, Eq, Structural)]
pub enum ParseError {
    /// The address pattern is not `/serialosc/device`.
    WrongAddress,
    /// The reply does not carry exactly three arguments.
    WrongArgCount,
    /// An argument has the wrong type (expected string, string, int).
    WrongArgType,
    /// The command-port argument does not fit in a 16-bit port number.
    PortOutOfRange,
}

/// The exact reason a reply is malformed, or `None` for a well-formed one.
pub open spec fn device_reply_error(m: Message) -> Option<ParseError> {
    if m.addr@ != "/serialosc/device"@ {
        Some(ParseError::WrongAddress)
    } else if m.args@.len() != 3 {
        Some(ParseError::WrongArgCount)
    } else if !(m.args@[0] is Str) || !(m.args@[1] is Str) || !(m.args@[2] is Int) {
        Some(ParseError::WrongArgType)
    } else if !(0 <= m.args@[2]->Int_0 <= u16::MAX) {
        Some(ParseError::PortOutOfRange)
    } else {
        None
    }
}

/// Builds the `/serialosc/list` request: `(my_host, my_reply_port)` tell the
/// daemon where to send its device-descriptor replies.
pub fn request_discovery(my_host: String, my_reply_port: u16) -> (m: Message)
    ensures
        m.addr@ == "/serialosc/list"@,
        m.args@.len() == 2,
        m.args@[0] == OscArg::Str(my_host),
        m.args@[1] == OscArg::Int(my_reply_port as i32),
{
    let mut args: Vec<OscArg> = Vec::new();
    args.push(OscArg::Str(my_host));
    args.push(OscArg::Int(my_reply_port as i32));
    Message { addr: "/serialosc/list".to_owned(), args }
}

/// Parses one `/serialosc/device` reply into a descriptor. `origin_host` is
/// the address the datagram came from; it becomes the descriptor's host.
/// A reply of any other shape is rejected with the exact reason; session
/// state is never touched (this function holds no session).
pub fn parse_device_reply(m: &Message, origin_host: String) -> (r: Result<
    DeviceDescriptor,
    ParseError,
>)
    ensures
        r is Ok <==> device_reply_error(*m) is None,
        r matches Ok(d) ==> {
            &&& d.id@ == m.args@[0]->Str_0@
            &&& d.host == origin_host
            &&& d.command_port == m.args@[2]->Int_0
        },
        r matches Err(e) ==> Some(e) == device_reply_error(*m),
{
    if !(m.addr == "/serialosc/device".to_owned()) {
        return Err(ParseError::WrongAddress);
    }
    if m.args.len() != 3 {
        return Err(ParseError::WrongArgCount);
    }
    match (&m.args[0], &m.args[1], &m.args[2]) {
        (OscArg::Str(serial), OscArg::Str(_device_type), OscArg::Int(port)) => {
            if *port < 0 || *port > 65535 {
                Err(ParseError::PortOutOfRange)
            } else {
                Ok(
                    DeviceDescriptor {
                        id: serial.clone(),
                        host: origin_host,
                        command_port: *port as u16,
                    },
                )
            }
        },
        _ => Err(ParseError::WrongArgType),
    }
}

} // verus!
