//! The per-device session: a latched 8x8 button bitmap kept in sync with the
//! device's LEDs. Key events toggle cells of the bitmap; every tick the whole
//! bitmap is republished as one row-update command per row, so the device's
//! display converges to the bitmap within one tick of any mutation and heals
//! after a dropped datagram.

use vstd::prelude::*;

use crate::DEFAULT_EVENT_PORT;
use crate::discovery::DeviceDescriptor;
use crate::msg::Message;
use crate::msg::OscArg;

verus! {

/// Number of rows and of columns of the grid.
pub const GRID_SIZE: usize = 8;

/// Mathematical state of a session: where commands go, where events arrive,
/// and the latch bitmap (one byte per row, bit `x` = column `x` of row `y`).
pub ghost struct SessionV {
    /// Whether a device has been attached.
    pub attached: bool,
    /// Host of the attached device's command socket.
    pub device_host: Seq<char>,
    /// Port of the attached device's command socket.
    pub device_port: u16,
    /// Local port the device is told to send events to.
    pub event_port: u16,
    /// The latch bitmap, row by row.
    pub latch: Seq<u8>,
}

/// The latch row `row` with the bit of column `x` flipped.
pub open spec fn flip_cell(row: u8, x: u8) -> u8
    recommends
        x < 8,
{
    row ^ (1u8 << x)
}

/// Whether the bit of column `x` is set in row `y` of `latch`.
pub open spec fn cell(latch: Seq<u8>, x: i32, y: i32) -> bool
    recommends
        key_in_range(x, y),
        latch.len() == 8,
{
    latch[y as int] & (1u8 << (x as u8)) != 0
}

/// Whether a key event's coordinates address a cell of the 8x8 grid.
pub open spec fn key_in_range(x: i32, y: i32) -> bool {
    &&& 0 <= x < 8
    &&& 0 <= y < 8
}

/// The latch after one key event: a press (`state == 1`) on an in-range cell
/// flips that cell; a release, or any out-of-range coordinate, changes
/// nothing.
pub open spec fn apply_key(latch: Seq<u8>, x: i32, y: i32, state: i32) -> Seq<u8> {
    if state == 1 && key_in_range(x, y) {
        latch.update(y as int, flip_cell(latch[y as int], x as u8))
    } else {
        latch
    }
}

/// Whether a message is a well-formed `/grid/key` event.
pub open spec fn is_key_msg(m: Message) -> bool {
    &&& m.addr@ == "/grid/key"@
    &&& m.args@.len() == 3
    &&& m.args@[0] is Int
    &&& m.args@[1] is Int
    &&& m.args@[2] is Int
}

/// The latch after one inbound message: a well-formed key event is applied,
/// anything else is ignored.
pub open spec fn apply_msg(latch: Seq<u8>, m: Message) -> Seq<u8> {
    if is_key_msg(m) {
        apply_key(latch, m.args@[0]->Int_0, m.args@[1]->Int_0, m.args@[2]->Int_0)
    } else {
        latch
    }
}

/// The latch after a whole inbox, applied in arrival order.
pub open spec fn apply_msgs(latch: Seq<u8>, ms: Seq<Message>) -> Seq<u8>
    decreases ms.len(),
{
    if ms.len() == 0 {
        latch
    } else {
        apply_msg(apply_msgs(latch, ms.drop_last()), ms.last())
    }
}

/// The session state after attaching to a device at `host:port`: the command
/// channel is rebound, the latch and the event port are kept.
pub open spec fn attach_state(s: SessionV, host: Seq<char>, port: u16) -> SessionV {
    SessionV { attached: true, device_host: host, device_port: port, ..s }
}

/// Whether `m` is the `/sys/port` command that reports `port`.
pub open spec fn is_sys_port_msg(m: Message, port: u16) -> bool {
    &&& m.addr@ == "/sys/port"@
    &&& m.args@.len() == 1
    &&& m.args@[0] == OscArg::Int(port as i32)
}

/// Whether `m` is the row-update command for row `y` with bitmask `mask`.
pub open spec fn is_row_msg(m: Message, y: int, mask: u8) -> bool {
    &&& m.addr@ == "/grid/led/row"@
    &&& m.args@.len() == 3
    &&& m.args@[0] == OscArg::Int(0i32)
    &&& m.args@[1] == OscArg::Int(y as i32)
    &&& m.args@[2] == OscArg::Int(mask as i32)
}

/// Whether `m` is the `/grid/led/all` command that sets every LED to `on`.
pub open spec fn is_all_msg(m: Message, on: bool) -> bool {
    &&& m.addr@ == "/grid/led/all"@
    &&& m.args@.len() == 1
    &&& m.args@[0] == OscArg::Int(if on { 1i32 } else { 0i32 })
}

/// A session with a device: addressing for the command channel, the local
/// event port, and the latch bitmap, the single source of truth for the
/// device's LEDs.
pub struct GridSession {
    attached: bool,
    device_host: String,
    device_port: u16,
    event_port: u16,
    latch: Vec<u8>,
}

impl View for GridSession {
    type V = SessionV;

    closed spec fn view(&self) -> SessionV {
        SessionV {
            attached: self.attached,
            device_host: self.device_host@,
            device_port: self.device_port,
            event_port: self.event_port,
            latch: self.latch@,
        }
    }
}

impl GridSession {
    /// The latch always holds exactly one byte per grid row.
    pub open spec fn wf(self) -> bool {
        self@.latch.len() == 8
    }

    /// A fresh, unattached session: latch all dark, default event port.
    pub fn new() -> (s: GridSession)
        ensures
            s.wf(),
            !s@.attached,
            s@.event_port == DEFAULT_EVENT_PORT,
            forall|i: int| 0 <= i < 8 ==> s@.latch[i] == 0u8,
    {
        let mut latch: Vec<u8> = Vec::new();
        let mut i: usize = 0;
        while i < GRID_SIZE
            invariant
                i <= 8,
                latch@.len() == i,
                forall|j: int| 0 <= j < i ==> latch@[j] == 0u8,
            decreases 8 - i,
        {
            latch.push(0u8);
            i += 1;
        }
        GridSession {
            attached: false,
            device_host: String::new(),
            device_port: 0,
            event_port: DEFAULT_EVENT_PORT,
            latch,
        }
    }

    /// A fresh, unattached session that will ask the device to send its
    /// events to `event_port` instead of the default.
    pub fn new_with_event_port(event_port: u16) -> (s: GridSession)
        ensures
            s.wf(),
            !s@.attached,
            s@.event_port == event_port,
            forall|i: int| 0 <= i < 8 ==> s@.latch[i] == 0u8,
    {
        let mut s = GridSession::new();
        s.event_port = event_port;
        s
    }

    /// Applies one key event to the latch: a press on an in-range cell flips
    /// it, a release or an out-of-range coordinate changes nothing. Nothing
    /// else of the session moves.
    pub fn toggle_via_key_event(&mut self, x: i32, y: i32, state: i32)
        requires
            old(self).wf(),
        ensures
            final(self).wf(),
            final(self)@ == (SessionV {
                latch: apply_key(old(self)@.latch, x, y, state),
                ..old(self)@
            }),
    {
        if state == 1 && x >= 0 && x < 8 && y >= 0 && y < 8 {
            let xi = x as usize;
            let yi = y as usize;
            let row = self.latch[yi];
            self.latch.set(yi, row ^ (1u8 << (x as u8)));
        }
    }

    /// Toggles one cell directly (the user-facing press), with the same
    /// bounds policy as a device key event: out-of-range is ignored.
    pub fn toggle(&mut self, x: i32, y: i32)
        requires
            old(self).wf(),
        ensures
            final(self).wf(),
            final(self)@ == (SessionV { latch: apply_key(old(self)@.latch, x, y, 1), ..old(self)@ }),
    {
        self.toggle_via_key_event(x, y, 1);
    }

    /// Rebinds the command channel to the descriptor's address and returns
    /// the `/sys/port` command that tells the device where to send events.
    /// A second attach replaces the first deterministically (last descriptor
    /// wins); the latch survives re-attachment.
    pub fn attach(&mut self, d: &DeviceDescriptor) -> (cmd: Message)
        requires
            old(self).wf(),
        ensures
            final(self).wf(),
            final(self)@ == attach_state(old(self)@, d.host@, d.command_port),
            is_sys_port_msg(cmd, old(self)@.event_port),
    {
        self.device_host = d.host.clone();
        self.device_port = d.command_port;
        self.attached = true;
        let mut args: Vec<OscArg> = Vec::new();
        args.push(OscArg::Int(self.event_port as i32));
        Message { addr: "/sys/port".to_owned(), args }
    }

    /// Applies one inbound message: a well-formed `/grid/key` event updates
    /// the latch by the toggle rule, everything else is ignored.
    pub fn process_message(&mut self, m: &Message)
        requires
            old(self).wf(),
        ensures
            final(self).wf(),
            final(self)@ == (SessionV { latch: apply_msg(old(self)@.latch, *m), ..old(self)@ }),
    {
        if m.addr == "/grid/key".to_owned() && m.args.len() == 3 {
            match (&m.args[0], &m.args[1], &m.args[2]) {
                (OscArg::Int(x), OscArg::Int(y), OscArg::Int(state)) => {
                    self.toggle_via_key_event(*x, *y, *state);
                },
                _ => {},
            }
        }
    }

    /// One tick of the drain/dispatch/resync loop: every inbound message is
    /// applied in arrival order, then the whole latch is republished as
    /// exactly one row-update command per row, whether or not any event
    /// touched that row.
    pub fn tick(&mut self, inbox: &Vec<Message>) -> (out: Vec<Message>)
        requires
            old(self).wf(),
        ensures
            final(self).wf(),
            final(self)@ == (SessionV {
                latch: apply_msgs(old(self)@.latch, inbox@),
                ..old(self)@
            }),
            out@.len() == 8,
            forall|y: int| 0 <= y < 8 ==> is_row_msg(#[trigger] out@[y], y, final(self)@.latch[y]),
    {
        let ghost orig: SessionV = self@;
        let mut i: usize = 0;
        while i < inbox.len()
            invariant
                i <= inbox@.len(),
                self.wf(),
                self@ == (SessionV { latch: apply_msgs(orig.latch, inbox@.take(i as int)), ..orig }),
            decreases inbox@.len() - i,
        {
            self.process_message(&inbox[i]);
            proof {
                lemma_apply_msgs_step(orig.latch, inbox@, i as int);
            }
            i += 1;
        }
        proof {
            assert(inbox@.take(inbox@.len() as int) =~= inbox@);
        }
        let mut out: Vec<Message> = Vec::new();
        let mut y: usize = 0;
        while y < GRID_SIZE
            invariant
                y <= 8,
                out@.len() == y,
                self.wf(),
                self@ == (SessionV { latch: apply_msgs(orig.latch, inbox@), ..orig }),
                forall|j: int| 0 <= j < y ==> is_row_msg(#[trigger] out@[j], j, self@.latch[j]),
            decreases 8 - y,
        {
            let row = self.latch[y];
            out.push(row_message(y, row));
            y += 1;
        }
        out
    }
}

/// The latch with every cell set to `on`.
pub open spec fn filled_latch(on: bool) -> Seq<u8> {
    Seq::new(8, |i: int| (if on { 0xffu8 } else { 0u8 }))
}

impl GridSession {
    /// Builds the `/grid/led/all` command that overwrites the whole display.
    /// With `write_latch` false this bypasses the latch, as the device
    /// protocol allows, so the next tick's resync overwrites it again; with
    /// `write_latch` true the latch is set to match, and the effect persists.
    pub fn set_all(&mut self, on: bool, write_latch: bool) -> (cmd: Message)
        requires
            old(self).wf(),
        ensures
            final(self).wf(),
            is_all_msg(cmd, on),
            write_latch ==> final(self)@ == (SessionV { latch: filled_latch(on), ..old(self)@ }),
            !write_latch ==> final(self)@ == old(self)@,
    {
        let ghost orig: SessionV = self@;
        if write_latch {
            let fill: u8 = if on {
                0xff
            } else {
                0
            };
            let mut y: usize = 0;
            while y < GRID_SIZE
                invariant
                    y <= 8,
                    self.wf(),
                    self@ == (SessionV { latch: self@.latch, ..orig }),
                    fill == (if on { 0xffu8 } else { 0u8 }),
                    forall|j: int| 0 <= j < y ==> self@.latch[j] == fill,
                    forall|j: int| y <= j < 8 ==> self@.latch[j] == orig.latch[j],
                decreases 8 - y,
            {
                self.latch.set(y, fill);
                y += 1;
            }
            proof {
                assert(self@.latch =~= filled_latch(on));
            }
        }
        let mut args: Vec<OscArg> = Vec::new();
        args.push(
            OscArg::Int(
                if on {
                    1i32
                } else {
                    0i32
                },
            ),
        );
        Message { addr: "/grid/led/all".to_owned(), args }
    }

    /// Current bitmask of row `y`.
    pub fn latch_row(&self, y: usize) -> (r: u8)
        requires
            self.wf(),
            y < 8,
        ensures
            r == self@.latch[y as int],
    {
        self.latch[y]
    }

    /// Whether a device has been attached.
    pub fn is_attached(&self) -> (r: bool)
        ensures
            r == self@.attached,
    {
        self.attached
    }

    /// Local port the device is told to send events to.
    pub fn event_port(&self) -> (r: u16)
        ensures
            r == self@.event_port,
    {
        self.event_port
    }

    /// Host of the attached device's command socket.
    pub fn device_host(&self) -> (r: &String)
        ensures
            r@ == self@.device_host,
    {
        &self.device_host
    }

    /// Port of the attached device's command socket.
    pub fn device_port(&self) -> (r: u16)
        ensures
            r == self@.device_port,
    {
        self.device_port
    }
}

/// Law: for any in-range cell, a release never mutates the latch; a press
/// flips exactly that cell and no other; and two consecutive presses with no
/// release between them restore the original latch.
pub proof fn lemma_toggle_idempotence(latch: Seq<u8>, x: i32, y: i32)
    requires
        latch.len() == 8,
        key_in_range(x, y),
    ensures
        apply_key(latch, x, y, 0) == latch,
        cell(apply_key(latch, x, y, 1), x, y) == !cell(latch, x, y),
        forall|x2: i32, y2: i32|
            key_in_range(x2, y2) && (x2 != x || y2 != y) ==> cell(
                apply_key(latch, x, y, 1),
                x2,
                y2,
            ) == cell(latch, x2, y2),
        apply_key(apply_key(latch, x, y, 1), x, y, 1) == latch,
{
    let xb = x as u8;
    let r = latch[y as int];
    assert(((r ^ (1u8 << xb)) & (1u8 << xb) != 0) == !(r & (1u8 << xb) != 0)) by (bit_vector)
        requires
            xb < 8,
    ;
    assert forall|x2: i32, y2: i32|
        key_in_range(x2, y2) && (x2 != x || y2 != y) implies cell(
        apply_key(latch, x, y, 1),
        x2,
        y2,
    ) == cell(latch, x2, y2) by {
        if y2 == y {
            let x2b = x2 as u8;
            assert((r ^ (1u8 << xb)) & (1u8 << x2b) == r & (1u8 << x2b)) by (bit_vector)
                requires
                    xb < 8,
                    x2b < 8,
                    xb != x2b,
            ;
        }
    }
    assert((r ^ (1u8 << xb)) ^ (1u8 << xb) == r) by (bit_vector);
    assert(apply_key(apply_key(latch, x, y, 1), x, y, 1) =~= latch);
}

/// Law: a key event whose coordinates fall outside the grid never mutates
/// the latch, whatever its state.
pub proof fn lemma_out_of_range_ignored(latch: Seq<u8>, x: i32, y: i32, state: i32)
    requires
        !key_in_range(x, y),
    ensures
        apply_key(latch, x, y, state) == latch,
{
}

/// Law: attaching is last-descriptor-wins — attaching to one device and then
/// to another leaves exactly the state of attaching to the second alone, so
/// no addressing of the first survives.
pub proof fn lemma_attach_last_wins(
    s: SessionV,
    host1: Seq<char>,
    port1: u16,
    host2: Seq<char>,
    port2: u16,
)
    ensures
        attach_state(attach_state(s, host1, port1), host2, port2) == attach_state(s, host2, port2),
{
}

/// Builds the row-update command for row `y` with bitmask `mask`.
fn row_message(y: usize, mask: u8) -> (m: Message)
    requires
        y < 8,
    ensures
        is_row_msg(m, y as int, mask),
{
    let mut args: Vec<OscArg> = Vec::new();
    args.push(OscArg::Int(0i32));
    args.push(OscArg::Int(y as i32));
    args.push(OscArg::Int(mask as i32));
    Message { addr: "/grid/led/row".to_owned(), args }
}

/// Applying a prefix of one more message is applying that message after the
/// shorter prefix.
proof fn lemma_apply_msgs_step(latch: Seq<u8>, ms: Seq<Message>, i: int)
    requires
        0 <= i < ms.len(),
    ensures
        apply_msgs(latch, ms.take(i + 1)) == apply_msg(apply_msgs(latch, ms.take(i)), ms[i]),
{
    assert(ms.take(i + 1).drop_last() =~= ms.take(i));
    assert(ms.take(i + 1).last() == ms[i]);
}

} // verus!
