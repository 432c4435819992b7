//! USB full-speed device controller: endpoint bookkeeping, buffer
//! descriptor table (BDT) management with ping-pong banks, DATA0/DATA1
//! toggles, stall handling and interrupt status servicing.
//!
//! The BDT and the endpoint buffers live in memory owned by the platform
//! layer; the bus is told their addresses and describes every BDT update
//! and register access as a register program.

use vstd::prelude::*;

use crate::regs::{RegOp, Width};
use crate::clocks::Clocks;

verus! {

// ---------------------------------------------------------------------------
// Constants
// ---------------------------------------------------------------------------

/// Number of endpoints (each bidirectional).
pub const NUM_ENDPOINTS: usize = 16;
/// Size of each endpoint buffer in bytes.
pub const EP_BUF_SIZE: usize = 64;

/// BDT descriptor bit: buffer owned by the USB controller.
pub const BD_OWN: u32 = 0x80;
/// BDT descriptor bit: DATA1 toggle.
pub const BD_DATA1: u32 = 0x40;
/// BDT descriptor bit: data toggle synchronization.
pub const BD_DTS: u32 = 0x08;
/// BDT descriptor bit: stall.
pub const BD_STALL: u32 = 0x04;

/// PID of a SETUP token in a completed descriptor.
pub const PID_SETUP: u8 = 0x0D;

/// ISTAT bits.
pub const ISTAT_USBRST: u8 = 0x01;
pub const ISTAT_ERROR: u8 = 0x02;
pub const ISTAT_SOFTOK: u8 = 0x04;
pub const ISTAT_TOKDNE: u8 = 0x08;
pub const ISTAT_SLEEP: u8 = 0x10;
pub const ISTAT_RESUME: u8 = 0x20;
pub const ISTAT_STALL: u8 = 0x80;

/// USB0 register addresses.
pub const USB0_OTGCTL: u32 = 0x4007_201C;
pub const USB0_ISTAT: u32 = 0x4007_2080;
pub const USB0_INTEN: u32 = 0x4007_2084;
pub const USB0_ERRSTAT: u32 = 0x4007_2088;
pub const USB0_ERREN: u32 = 0x4007_208C;
pub const USB0_STAT: u32 = 0x4007_2090;
pub const USB0_CTL: u32 = 0x4007_2094;
pub const USB0_ADDR: u32 = 0x4007_2098;
pub const USB0_BDTPAGE1: u32 = 0x4007_209C;
pub const USB0_BDTPAGE2: u32 = 0x4007_20B0;
pub const USB0_BDTPAGE3: u32 = 0x4007_20B4;
pub const USB0_ENDPT0: u32 = 0x4007_20C0;
pub const USB0_USBCTRL: u32 = 0x4007_2100;
pub const USB0_CONTROL: u32 = 0x4007_2108;
pub const USB0_USBTRC0: u32 = 0x4007_210C;

/// SIM registers used for the USB clock.
pub const SIM_SOPT2: u32 = 0x4004_8004;
pub const SIM_SCGC4: u32 = 0x4004_8034;
pub const SIM_CLKDIV2: u32 = 0x4004_8048;

/// CTL bits.
pub const CTL_USBENSOFEN: u32 = 0x01;
pub const CTL_ODDRST: u32 = 0x02;

/// ENDPT bits.
pub const ENDPT_EPHSHK: u32 = 0x01;
pub const ENDPT_EPSTALL: u32 = 0x02;
pub const ENDPT_EPTXEN: u32 = 0x04;
pub const ENDPT_EPRXEN: u32 = 0x08;
pub const ENDPT_EPCTLDIS: u32 = 0x10;

// ---------------------------------------------------------------------------
// usb-device vocabulary
// ---------------------------------------------------------------------------

/// Direction of an endpoint, seen from the host.
#[derive(Clone, Copy, Debug, PartialEq, Eq, Structural)]
pub enum UsbDirection {
    /// Host to device.
    Out,
    /// Device to host.
    In,
}

/// Transfer type of an endpoint. Isochronous endpoints carry their
/// synchronization and usage codes.
#[derive(Clone, Copy, Debug, PartialEq, Eq, Structural)]
pub enum EndpointType {
    Control,
    Isochronous { synchronization: u8, usage: u8 },
    Bulk,
    Interrupt,
}

/// Endpoint address: index in bits 0-3, direction in bit 7 (set for IN).
#[derive(Clone, Copy, Debug, PartialEq, Eq, Structural)]
pub struct EndpointAddress(pub u8);

impl EndpointAddress {
    /// The endpoint number (bits 0-3).
    pub open spec fn spec_index(self) -> usize {
        (self.0 & 0x0F) as usize
    }

    /// The direction (bit 7).
    pub open spec fn spec_direction(self) -> UsbDirection {
        if self.0 & 0x80 != 0 {
            UsbDirection::In
        } else {
            UsbDirection::Out
        }
    }

    /// Build an address from an endpoint number and a direction.
    pub fn from_parts(index: usize, dir: UsbDirection) -> (r: EndpointAddress)
        requires
            index < 16,
        ensures
            r.spec_index() == index,
            r.spec_direction() == dir,
    {
        let i = index as u8;
        let r = match dir {
            UsbDirection::In => EndpointAddress(i | 0x80),
            UsbDirection::Out => EndpointAddress(i),
        };
        assert((i | 0x80u8) & 0x0Fu8 == i && (i | 0x80u8) & 0x80u8 != 0 && i & 0x0Fu8 == i && i & 0x80u8 == 0)
            by (bit_vector)
            requires
                i < 16,
        ;
        r
    }

    /// The endpoint number.
    pub fn index(&self) -> (r: usize)
        ensures
            r == self.spec_index(),
            r < 16,
    {
        let v = self.0;
        assert(v & 0x0Fu8 < 16) by (bit_vector);
        (v & 0x0F) as usize
    }

    /// The direction.
    pub fn direction(&self) -> (r: UsbDirection)
        ensures
            r == self.spec_direction(),
    {
        if self.0 & 0x80 != 0 {
            UsbDirection::In
        } else {
            UsbDirection::Out
        }
    }
}

/// Errors of the bus operations.
#[derive(Clone, Copy, Debug, PartialEq, Eq, Structural)]
pub enum UsbError {
    WouldBlock,
    ParseError,
    BufferOverflow,
    EndpointOverflow,
    EndpointMemoryOverflow,
    InvalidEndpoint,
    Unsupported,
    InvalidState,
}

/// Event reported by [`UsbBus::poll_finish`].
#[derive(Clone, Copy, Debug, PartialEq, Eq, Structural)]
pub enum PollResult {
    NoEvent,
    Reset,
    Data { ep_out: u16, ep_in_complete: u16, ep_setup: u16 },
    Suspend,
    Resume,
}

// ---------------------------------------------------------------------------
// Buffer descriptors
// ---------------------------------------------------------------------------

/// BDT index: `ep * 4 + (tx ? 2 : 0) + (odd ? 1 : 0)`.
pub open spec fn spec_bdt_index(ep: usize, tx: bool, odd: bool) -> usize {
    (ep * 4 + (if tx { 2usize } else { 0usize }) + (if odd { 1usize } else { 0usize })) as usize
}

/// BDT index of an endpoint's bank.
pub fn bdt_index(ep: usize, tx: bool, odd: bool) -> (r: usize)
    requires
        ep < NUM_ENDPOINTS,
    ensures
        r == spec_bdt_index(ep, tx, odd),
        r < 64,
{
    ep * 4 + if tx { 2 } else { 0 } + if odd { 1 } else { 0 }
}

/// Descriptor word: byte count in bits 16-25 and the OWN, DATA1, DTS and
/// STALL flags.
pub open spec fn spec_bd_desc(byte_count: u16, data1: bool, own: bool, dts: bool, stall: bool) -> u32 {
    (((byte_count as u32) & 0x3FF) << 16u32) | (if own { BD_OWN } else { 0 }) | (if data1 {
        BD_DATA1
    } else {
        0
    }) | (if dts { BD_DTS } else { 0 }) | (if stall { BD_STALL } else { 0 })
}

/// Build a descriptor word.
pub fn make_bd_desc(byte_count: u16, data1: bool, own: bool, dts: bool, stall: bool) -> (r: u32)
    ensures
        r == spec_bd_desc(byte_count, data1, own, dts, stall),
{
    let mut desc: u32 = ((byte_count as u32) & 0x3FF) << 16u32;
    if own {
        desc = desc | BD_OWN;
    } else {
        desc = desc | 0;
    }
    if data1 {
        desc = desc | BD_DATA1;
    } else {
        desc = desc | 0;
    }
    if dts {
        desc = desc | BD_DTS;
    } else {
        desc = desc | 0;
    }
    if stall {
        desc = desc | BD_STALL;
    } else {
        desc = desc | 0;
    }
    desc
}

/// Byte count of a completed descriptor (bits 16-25).
pub open spec fn spec_bd_byte_count(desc: u32) -> u16 {
    ((desc >> 16u32) & 0x3FF) as u16
}

/// PID of a completed descriptor (bits 2-5).
pub open spec fn spec_bd_pid(desc: u32) -> u8 {
    ((desc >> 2u32) & 0xF) as u8
}

/// Extract the byte count from a completed descriptor.
pub fn bd_byte_count(desc: u32) -> (r: u16)
    ensures
        r == spec_bd_byte_count(desc),
        r <= 0x3FF,
{
    assert((desc >> 16u32) & 0x3FFu32 <= 0x3FF) by (bit_vector);
    ((desc >> 16u32) & 0x3FF) as u16
}

/// Extract the PID token from a completed descriptor.
pub fn bd_pid(desc: u32) -> (r: u8)
    ensures
        r == spec_bd_pid(desc),
{
    assert((desc >> 2u32) & 0xFu32 <= 0xF) by (bit_vector);
    ((desc >> 2u32) & 0xF) as u8
}

/// A descriptor built for `count` bytes reads back `count` bytes, and the
/// OWN flag reads back as given.
pub proof fn lemma_bd_desc_fields(byte_count: u16, data1: bool, own: bool, dts: bool, stall: bool)
    requires
        byte_count <= 0x3FF,
    ensures
        spec_bd_byte_count(spec_bd_desc(byte_count, data1, own, dts, stall)) == byte_count,
        (spec_bd_desc(byte_count, data1, own, dts, stall) & BD_OWN != 0) == own,
{
    let bc = byte_count as u32;
    let o: u32 = if own { BD_OWN } else { 0 };
    let d: u32 = if data1 { BD_DATA1 } else { 0 };
    let t: u32 = if dts { BD_DTS } else { 0 };
    let s: u32 = if stall { BD_STALL } else { 0 };
    assert(((((bc & 0x3FF) << 16u32) | o | d | t | s) >> 16u32) & 0x3FF == bc && ((((bc & 0x3FF)
        << 16u32) | o | d | t | s) & 0x80 != 0) == (o == 0x80)) by (bit_vector)
        requires
            bc <= 0x3FF,
            o == 0 || o == 0x80,
            d == 0 || d == 0x40,
            t == 0 || t == 0x08,
            s == 0 || s == 0x04,
    ;
}

} // verus!

verus! {

// ---------------------------------------------------------------------------
// Endpoint state
// ---------------------------------------------------------------------------

/// Per-endpoint bookkeeping.
#[derive(Clone, Copy, Debug, PartialEq, Eq, Structural)]
pub struct EndpointState {
    pub ep_type: Option<EndpointType>,
    pub max_packet_size: u16,
    pub stalled_in: bool,
    pub stalled_out: bool,
    /// DATA0/DATA1 toggle of the next IN packet.
    pub tx_data_toggle: bool,
    /// DATA0/DATA1 toggle expected for the next OUT packet.
    pub rx_data_toggle: bool,
    /// Ping-pong bank of the next IN packet.
    pub tx_odd: bool,
    /// Ping-pong bank the receiver was last armed on.
    pub rx_odd: bool,
    /// Whether there is unread data in a receive bank.
    pub rx_ready: bool,
    /// Which bank holds the completed receive data.
    pub rx_complete_odd: bool,
    /// Whether the completed receive was a SETUP packet.
    pub rx_setup: bool,
}

impl EndpointState {
    /// An unallocated endpoint.
    pub open spec fn spec_new() -> EndpointState {
        EndpointState {
            ep_type: None,
            max_packet_size: 0,
            stalled_in: false,
            stalled_out: false,
            tx_data_toggle: false,
            rx_data_toggle: false,
            tx_odd: false,
            rx_odd: false,
            rx_ready: false,
            rx_complete_odd: false,
            rx_setup: false,
        }
    }

    /// An unallocated endpoint.
    pub fn new() -> (r: EndpointState)
        ensures
            r == EndpointState::spec_new(),
    {
        EndpointState {
            ep_type: None,
            max_packet_size: 0,
            stalled_in: false,
            stalled_out: false,
            tx_data_toggle: false,
            rx_data_toggle: false,
            tx_odd: false,
            rx_odd: false,
            rx_ready: false,
            rx_complete_odd: false,
            rx_setup: false,
        }
    }
}

/// Whether endpoint `i` is marked allocated in `mask`.
pub open spec fn allocated(mask: u16, i: int) -> bool {
    0 <= i < 16 && mask & (1u16 << (i as u16)) != 0
}

/// The first unallocated endpoint at or above `i` (16 when there is none).
pub open spec fn first_free_from(mask: u16, i: int) -> int
    decreases 16 - i,
{
    if i >= 16 {
        16
    } else if !allocated(mask, i) {
        i
    } else {
        first_free_from(mask, i + 1)
    }
}

/// Outcome of an endpoint allocation request: the endpoint number granted,
/// or the error.
pub open spec fn alloc_outcome(
    mask: u16,
    eps: Seq<EndpointState>,
    ep_addr: Option<EndpointAddress>,
    ep_type: EndpointType,
    max_packet_size: u16,
) -> Result<usize, UsbError> {
    match ep_addr {
        Some(a) => {
            let i = a.spec_index();
            if allocated(mask, i as int) && eps[i as int].ep_type is Some && eps[i as int].ep_type->0
                != ep_type {
                Err(UsbError::InvalidEndpoint)
            } else if max_packet_size > EP_BUF_SIZE as u16 {
                Err(UsbError::EndpointMemoryOverflow)
            } else {
                Ok(i)
            }
        },
        None => {
            let f = first_free_from(mask, if ep_type is Control { 0 } else { 1 });
            if f >= 16 {
                Err(UsbError::EndpointOverflow)
            } else if max_packet_size > EP_BUF_SIZE as u16 {
                Err(UsbError::EndpointMemoryOverflow)
            } else {
                Ok(f as usize)
            }
        },
    }
}

/// Address of the descriptor word of BDT entry `idx`.
pub open spec fn bdt_desc_addr_of(bdt_base: u32, idx: int) -> u32 {
    (bdt_base + 8 * idx) as u32
}

/// Address of the buffer of BDT entry `idx`.
pub open spec fn buffer_addr_of(buf_base: u32, idx: int) -> u32 {
    (buf_base + 64 * idx) as u32
}

/// The BDT update that hands buffer `idx` to the controller with `desc`:
/// the buffer address first, then the descriptor.
pub open spec fn bdt_write_ops(bdt_base: u32, buf_base: u32, idx: int, desc: u32) -> Seq<RegOp> {
    seq![
        RegOp::Write { addr: (bdt_desc_addr_of(bdt_base, idx) + 4) as u32, width: Width::W32, value: buffer_addr_of(buf_base, idx) },
        RegOp::Write { addr: bdt_desc_addr_of(bdt_base, idx), width: Width::W32, value: desc },
    ]
}

/// Arming receive bank `odd` of endpoint `ep` with state `s`.
pub open spec fn arm_rx_ops(bdt_base: u32, buf_base: u32, ep: usize, odd: bool, s: EndpointState) -> Seq<RegOp> {
    bdt_write_ops(
        bdt_base,
        buf_base,
        spec_bdt_index(ep, false, odd) as int,
        spec_bd_desc(s.max_packet_size, s.rx_data_toggle, true, true, false),
    )
}

/// Address of ENDPT register `ep`.
pub open spec fn endpt_addr(ep: usize) -> u32 {
    (USB0_ENDPT0 + 4 * ep) as u32
}

// ---------------------------------------------------------------------------
// UsbBus
// ---------------------------------------------------------------------------

/// Accumulated token results of one poll.
#[derive(Clone, Copy, Debug, PartialEq, Eq, Structural)]
pub struct PollTokens {
    pub ep_out: u16,
    pub ep_in_complete: u16,
    pub ep_setup: u16,
}

/// USB bus driver.
pub struct UsbBus {
    endpoints: Vec<EndpointState>,
    ep_alloc_mask: u16,
    bdt_base: u32,
    buf_base: u32,
    usb_frac: bool,
    usb_div: u8,
}

impl UsbBus {
    /// The state is well formed: 16 endpoints, a 512-byte aligned BDT and
    /// a buffer pool that fit the address space.
    pub closed spec fn wf(self) -> bool {
        &&& self.endpoints@.len() == NUM_ENDPOINTS
        &&& self.bdt_base % 512 == 0
        &&& self.bdt_base <= 0xFFFF_FFFF - 512
        &&& self.buf_base <= 0xFFFF_FFFF - 4096
        &&& self.usb_div < 8
    }

    /// Endpoint states.
    pub closed spec fn eps(self) -> Seq<EndpointState> {
        self.endpoints@
    }

    /// Allocation mask.
    pub closed spec fn mask(self) -> u16 {
        self.ep_alloc_mask
    }

    /// Base address of the BDT.
    pub closed spec fn bdt(self) -> u32 {
        self.bdt_base
    }

    /// Base address of the endpoint buffer pool.
    pub closed spec fn bufs(self) -> u32 {
        self.buf_base
    }

    /// USB clock divider: (USBFRAC, USBDIV).
    pub closed spec fn divider(self) -> (bool, u8) {
        (self.usb_frac, self.usb_div)
    }

    /// Address of the descriptor word of BDT entry `idx`.
    pub fn bdt_desc_addr(&self, idx: usize) -> (r: u32)
        requires
            self.wf(),
            idx < 64,
        ensures
            r == bdt_desc_addr_of(self.bdt(), idx as int),
    {
        self.bdt_base + 8 * (idx as u32)
    }

    /// Address of the buffer of BDT entry `idx`.
    pub fn buffer_addr(&self, idx: usize) -> (r: u32)
        requires
            self.wf(),
            idx < 64,
        ensures
            r == buffer_addr_of(self.bufs(), idx as int),
    {
        self.buf_base + 64 * (idx as u32)
    }

    /// BDT entry the next IN packet of endpoint `ep` goes to.
    pub fn tx_bank(&self, ep: usize) -> (r: usize)
        requires
            self.wf(),
            ep < NUM_ENDPOINTS,
        ensures
            r == spec_bdt_index(ep, true, self.eps()[ep as int].tx_odd),
            r < 64,
    {
        bdt_index(ep, true, self.endpoints[ep].tx_odd)
    }

    /// BDT entry holding the completed OUT/SETUP data of endpoint `ep`.
    pub fn rx_bank(&self, ep: usize) -> (r: usize)
        requires
            self.wf(),
            ep < NUM_ENDPOINTS,
        ensures
            r == spec_bdt_index(ep, false, self.eps()[ep as int].rx_complete_odd),
            r < 64,
    {
        bdt_index(ep, false, self.endpoints[ep].rx_complete_odd)
    }

    /// Allocate an endpoint.
    ///
    /// With an explicit address, the endpoint may already be allocated in
    /// the other direction with the same type. Without one, the first free
    /// endpoint is taken (from 0 for control endpoints, from 1 otherwise).
    pub fn alloc_ep(
        &mut self,
        ep_dir: UsbDirection,
        ep_addr: Option<EndpointAddress>,
        ep_type: EndpointType,
        max_packet_size: u16,
        interval: u8,
    ) -> (r: Result<EndpointAddress, UsbError>)
        requires
            old(self).wf(),
        ensures
            final(self).wf(),
            final(self).bdt() == old(self).bdt(),
            final(self).bufs() == old(self).bufs(),
            final(self).divider() == old(self).divider(),
            match alloc_outcome(old(self).mask(), old(self).eps(), ep_addr, ep_type, max_packet_size) {
                Ok(i) => {
                    &&& r is Ok
                    &&& r->Ok_0.spec_index() == i
                    &&& r->Ok_0.spec_direction() == ep_dir
                    &&& final(self).mask() == old(self).mask() | (1u16 << (i as u16))
                    &&& final(self).eps() == old(self).eps().update(
                        i as int,
                        EndpointState {
                            ep_type: Some(ep_type),
                            max_packet_size,
                            ..old(self).eps()[i as int]
                        },
                    )
                },
                Err(e) => {
                    &&& r == Err::<EndpointAddress, UsbError>(e)
                    &&& final(self).mask() == old(self).mask()
                    &&& final(self).eps() == old(self).eps()
                },
            },
    {
        let ep_index: usize = match ep_addr {
            Some(addr) => {
                let idx = addr.index();
                if self.ep_alloc_mask & (1u16 << (idx as u16)) != 0 {
                    match self.endpoints[idx].ep_type {
                        Some(existing_type) => {
                            if existing_type != ep_type {
                                return Err(UsbError::InvalidEndpoint);
                            }
                        },
                        None => {},
                    }
                }
                idx
            },
            None => {
                let start: usize = match ep_type {
                    EndpointType::Control => 0,
                    _ => 1,
                };
                let mut i: usize = start;
                while i < NUM_ENDPOINTS && self.ep_alloc_mask & (1u16 << (i as u16)) != 0
                    invariant
                        start <= i <= NUM_ENDPOINTS,
                        first_free_from(old(self).mask(), start as int) == first_free_from(
                            old(self).mask(),
                            i as int,
                        ),
                        self == old(self),
                    decreases NUM_ENDPOINTS - i,
                {
                    i = i + 1;
                }
                if i >= NUM_ENDPOINTS {
                    return Err(UsbError::EndpointOverflow);
                }
                i
            },
        };
        if max_packet_size > EP_BUF_SIZE as u16 {
            return Err(UsbError::EndpointMemoryOverflow);
        }
        self.ep_alloc_mask = self.ep_alloc_mask | (1u16 << (ep_index as u16));
        let mut st = self.endpoints[ep_index];
        st.ep_type = Some(ep_type);
        st.max_packet_size = max_packet_size;
        self.endpoints.set(ep_index, st);
        Ok(EndpointAddress::from_parts(ep_index, ep_dir))
    }

    /// Whether an endpoint direction is stalled.
    pub fn is_stalled(&self, ep_addr: EndpointAddress) -> (r: bool)
        requires
            self.wf(),
        ensures
            r == match ep_addr.spec_direction() {
                UsbDirection::In => self.eps()[ep_addr.spec_index() as int].stalled_in,
                UsbDirection::Out => self.eps()[ep_addr.spec_index() as int].stalled_out,
            },
    {
        let ep = ep_addr.index();
        let state = &self.endpoints[ep];
        match ep_addr.direction() {
            UsbDirection::In => state.stalled_in,
            UsbDirection::Out => state.stalled_out,
        }
    }
}

} // verus!

verus! {

impl UsbBus {
    /// Queue an IN packet on an endpoint.
    ///
    /// `len` is the number of bytes offered and `bd_desc` the current
    /// descriptor of the endpoint's next transmit bank (see
    /// [`tx_bank`](Self::tx_bank)). On success returns the number of bytes
    /// taken (at most the endpoint's max packet size) and the BDT update that
    /// hands the bank to the controller; the bytes must be in the bank's
    /// buffer before the update runs. The toggle and the bank flip.
    pub fn write(&mut self, ep_addr: EndpointAddress, len: usize, bd_desc: u32) -> (r: Result<(usize, Vec<RegOp>), UsbError>)
        requires
            old(self).wf(),
        ensures
            final(self).wf(),
            final(self).mask() == old(self).mask(),
            final(self).bdt() == old(self).bdt(),
            final(self).bufs() == old(self).bufs(),
            final(self).divider() == old(self).divider(),
            ({
                let ep = ep_addr.spec_index();
                let s = old(self).eps()[ep as int];
                let n: usize = if len < s.max_packet_size as usize { len } else { s.max_packet_size as usize };
                let idx = spec_bdt_index(ep, true, s.tx_odd);
                if s.ep_type is None {
                    r == Err::<(usize, Vec<RegOp>), UsbError>(UsbError::InvalidEndpoint) && final(self).eps() == old(self).eps()
                } else if s.stalled_in {
                    r == Err::<(usize, Vec<RegOp>), UsbError>(UsbError::InvalidState) && final(self).eps() == old(self).eps()
                } else if bd_desc & BD_OWN != 0 {
                    r == Err::<(usize, Vec<RegOp>), UsbError>(UsbError::WouldBlock) && final(self).eps() == old(self).eps()
                } else {
                    &&& r is Ok
                    &&& r->Ok_0.0 == n
                    &&& r->Ok_0.1@ == bdt_write_ops(old(self).bdt(), old(self).bufs(), idx as int,
                        spec_bd_desc(n as u16, s.tx_data_toggle, true, true, false))
                    &&& final(self).eps() == old(self).eps().update(ep as int, EndpointState {
                        tx_data_toggle: !s.tx_data_toggle,
                        tx_odd: !s.tx_odd,
                        ..s
                    })
                }
            }),
    {
        let ep = ep_addr.index();
        let mut state = self.endpoints[ep];
        if state.ep_type.is_none() {
            return Err(UsbError::InvalidEndpoint);
        }
        if state.stalled_in {
            return Err(UsbError::InvalidState);
        }
        let n: usize = if len < state.max_packet_size as usize { len } else { state.max_packet_size as usize };
        let idx = bdt_index(ep, true, state.tx_odd);
        if bd_desc & BD_OWN != 0 {
            return Err(UsbError::WouldBlock);
        }
        let desc = make_bd_desc(n as u16, state.tx_data_toggle, true, true, false);
        let ops = self.bdt_write(idx, desc);
        state.tx_data_toggle = !state.tx_data_toggle;
        state.tx_odd = !state.tx_odd;
        self.endpoints.set(ep, state);
        Ok((n, ops))
    }

    /// The BDT update that hands entry `idx` to the controller with `desc`.
    fn bdt_write(&self, idx: usize, desc: u32) -> (r: Vec<RegOp>)
        requires
            self.wf(),
            idx < 64,
        ensures
            r@ == bdt_write_ops(self.bdt(), self.bufs(), idx as int, desc),
    {
        let d = self.bdt_desc_addr(idx);
        let b = self.buffer_addr(idx);
        let mut ops: Vec<RegOp> = Vec::new();
        ops.push(RegOp::Write { addr: d + 4, width: Width::W32, value: b });
        ops.push(RegOp::Write { addr: d, width: Width::W32, value: desc });
        ops
    }

    /// The BDT update that arms receive bank `odd` of `ep` with the state's
    /// max packet size and receive toggle.
    fn arm_rx(&self, ep: usize, odd: bool, s: EndpointState) -> (r: Vec<RegOp>)
        requires
            self.wf(),
            ep < NUM_ENDPOINTS,
        ensures
            r@ == arm_rx_ops(self.bdt(), self.bufs(), ep, odd, s),
    {
        let idx = bdt_index(ep, false, odd);
        let desc = make_bd_desc(s.max_packet_size, s.rx_data_toggle, true, true, false);
        self.bdt_write(idx, desc)
    }

    /// Take a received OUT or SETUP packet from an endpoint.
    ///
    /// `buf_len` is the room the caller has and `bd_desc` the descriptor of
    /// the completed receive bank (see [`rx_bank`](Self::rx_bank)). On
    /// success returns the byte count (to be copied from that bank's buffer
    /// before the returned update runs) and the update that re-arms the same
    /// bank. After a SETUP both toggles become DATA1; otherwise the receive
    /// toggle flips.
    pub fn read(&mut self, ep_addr: EndpointAddress, buf_len: usize, bd_desc: u32) -> (r: Result<(usize, Vec<RegOp>), UsbError>)
        requires
            old(self).wf(),
        ensures
            final(self).wf(),
            final(self).mask() == old(self).mask(),
            final(self).bdt() == old(self).bdt(),
            final(self).bufs() == old(self).bufs(),
            final(self).divider() == old(self).divider(),
            ({
                let ep = ep_addr.spec_index();
                let s = old(self).eps()[ep as int];
                let count = spec_bd_byte_count(bd_desc) as usize;
                let setup = spec_bd_pid(bd_desc) == PID_SETUP;
                let ns = EndpointState {
                    rx_ready: false,
                    rx_setup: false,
                    tx_data_toggle: if setup { true } else { s.tx_data_toggle },
                    rx_data_toggle: if setup { true } else { !s.rx_data_toggle },
                    ..s
                };
                if s.ep_type is None {
                    r == Err::<(usize, Vec<RegOp>), UsbError>(UsbError::InvalidEndpoint) && final(self).eps() == old(self).eps()
                } else if !s.rx_ready {
                    r == Err::<(usize, Vec<RegOp>), UsbError>(UsbError::WouldBlock) && final(self).eps() == old(self).eps()
                } else if count > buf_len {
                    r == Err::<(usize, Vec<RegOp>), UsbError>(UsbError::BufferOverflow) && final(self).eps() == old(self).eps()
                } else {
                    &&& r is Ok
                    &&& r->Ok_0.0 == count
                    &&& r->Ok_0.1@ == arm_rx_ops(old(self).bdt(), old(self).bufs(), ep, s.rx_complete_odd, ns)
                    &&& final(self).eps() == old(self).eps().update(ep as int, ns)
                }
            }),
    {
        let ep = ep_addr.index();
        let mut state = self.endpoints[ep];
        if state.ep_type.is_none() {
            return Err(UsbError::InvalidEndpoint);
        }
        if !state.rx_ready {
            return Err(UsbError::WouldBlock);
        }
        let count = bd_byte_count(bd_desc) as usize;
        if count > buf_len {
            return Err(UsbError::BufferOverflow);
        }
        state.rx_ready = false;
        state.rx_setup = false;
        if bd_pid(bd_desc) == PID_SETUP {
            state.tx_data_toggle = true;
            state.rx_data_toggle = true;
        } else {
            state.rx_data_toggle = !state.rx_data_toggle;
        }
        let ops = self.arm_rx(ep, state.rx_complete_odd, state);
        self.endpoints.set(ep, state);
        Ok((count, ops))
    }

    /// Stall or unstall one direction of an endpoint.
    ///
    /// Unstalling resets that direction's toggle to DATA0; unstalling OUT
    /// also re-arms the receive bank.
    pub fn set_stalled(&mut self, ep_addr: EndpointAddress, stalled: bool) -> (r: Vec<RegOp>)
        requires
            old(self).wf(),
        ensures
            final(self).wf(),
            final(self).mask() == old(self).mask(),
            final(self).bdt() == old(self).bdt(),
            final(self).bufs() == old(self).bufs(),
            final(self).divider() == old(self).divider(),
            ({
                let ep = ep_addr.spec_index();
                let s = old(self).eps()[ep as int];
                let ns = match ep_addr.spec_direction() {
                    UsbDirection::In => EndpointState {
                        stalled_in: stalled,
                        tx_data_toggle: if stalled { s.tx_data_toggle } else { false },
                        ..s
                    },
                    UsbDirection::Out => EndpointState {
                        stalled_out: stalled,
                        rx_data_toggle: if stalled { s.rx_data_toggle } else { false },
                        ..s
                    },
                };
                &&& final(self).eps() == old(self).eps().update(ep as int, ns)
                &&& if stalled {
                    r@ == seq![RegOp::Modify { addr: endpt_addr(ep), width: Width::W8, clear: 0, set: ENDPT_EPSTALL }]
                } else if ep_addr.spec_direction() == UsbDirection::In {
                    r@ == seq![RegOp::Modify { addr: endpt_addr(ep), width: Width::W8, clear: ENDPT_EPSTALL, set: 0 }]
                } else {
                    r@ == seq![RegOp::Modify { addr: endpt_addr(ep), width: Width::W8, clear: ENDPT_EPSTALL, set: 0 }]
                        + arm_rx_ops(old(self).bdt(), old(self).bufs(), ep, s.rx_odd, ns)
                }
            }),
    {
        let ep = ep_addr.index();
        let mut state = self.endpoints[ep];
        let dir = ep_addr.direction();
        match dir {
            UsbDirection::In => state.stalled_in = stalled,
            UsbDirection::Out => state.stalled_out = stalled,
        }
        let endpt = USB0_ENDPT0 + 4 * (ep as u32);
        let mut ops: Vec<RegOp> = Vec::new();
        if stalled {
            ops.push(RegOp::Modify { addr: endpt, width: Width::W8, clear: 0, set: ENDPT_EPSTALL });
        } else {
            ops.push(RegOp::Modify { addr: endpt, width: Width::W8, clear: ENDPT_EPSTALL, set: 0 });
            match dir {
                UsbDirection::In => {
                    state.tx_data_toggle = false;
                },
                UsbDirection::Out => {
                    state.rx_data_toggle = false;
                    let mut arm = self.arm_rx(ep, state.rx_odd, state);
                    ops.append(&mut arm);
                },
            }
        }
        self.endpoints.set(ep, state);
        ops
    }
}

} // verus!

verus! {

/// USB clock divider `(USBFRAC, USBDIV)` that makes 48 MHz from a PLL of
/// 72, 96 or 120 MHz: `USB = PLL × (USBFRAC + 1) / (USBDIV + 1)`.
pub fn usb_clock_divider(pll_hz: u32) -> (r: (bool, u8))
    requires
        pll_hz == 72_000_000 || pll_hz == 96_000_000 || pll_hz == 120_000_000,
    ensures
        r.1 < 8,
        pll_hz as int * (if r.0 { 2int } else { 1int }) == 48_000_000 * (r.1 as int + 1),
{
    if pll_hz == 72_000_000 {
        (true, 2)
    } else if pll_hz == 96_000_000 {
        (false, 1)
    } else {
        (true, 4)
    }
}

/// Endpoint state after a bus reset: toggles DATA0, even banks, nothing
/// pending, nothing stalled; type and packet size kept.
pub open spec fn reset_endpoint(s: EndpointState) -> EndpointState {
    EndpointState {
        tx_data_toggle: false,
        rx_data_toggle: false,
        tx_odd: false,
        rx_odd: false,
        rx_ready: false,
        rx_setup: false,
        stalled_in: false,
        stalled_out: false,
        ..s
    }
}

/// The clock setup for the USB module: PLL as USB source, the divider,
/// and the clock gate.
pub open spec fn usb_clock_ops(frac: bool, div: u8) -> Seq<RegOp> {
    seq![
        RegOp::Modify { addr: SIM_SOPT2, width: Width::W32, clear: 0x0005_0000, set: 0x0005_0000 },
        RegOp::Write { addr: SIM_CLKDIV2, width: Width::W32, value: ((div as u32) << 1u32) | (if frac { 1u32 } else { 0u32 }) },
        RegOp::Modify { addr: SIM_SCGC4, width: Width::W32, clear: 0, set: 0x0004_0000 },
    ]
}

/// EP0 setup: both receive banks armed, handshake + TX + RX enabled.
pub open spec fn ep0_ops(bdt_base: u32, buf_base: u32, s0: EndpointState) -> Seq<RegOp> {
    arm_rx_ops(bdt_base, buf_base, 0, false, s0) + arm_rx_ops(bdt_base, buf_base, 0, true, s0) + seq![
        RegOp::Write { addr: USB0_ENDPT0, width: Width::W8, value: ENDPT_EPHSHK | ENDPT_EPTXEN | ENDPT_EPRXEN },
    ]
}

/// Program that clears every BDT entry (address word, then descriptor).
pub open spec fn clear_bdt_ops(bdt_base: u32) -> Seq<RegOp> {
    Seq::new(
        128,
        |k: int|
            if k % 2 == 0 {
                RegOp::Write { addr: (bdt_desc_addr_of(bdt_base, k / 2) + 4) as u32, width: Width::W32, value: 0 }
            } else {
                RegOp::Write { addr: bdt_desc_addr_of(bdt_base, k / 2), width: Width::W32, value: 0 }
            },
    )
}

/// Program that disables endpoints 1-15.
pub open spec fn disable_eps_ops() -> Seq<RegOp> {
    Seq::new(15, |k: int| RegOp::Write { addr: endpt_addr((k + 1) as usize), width: Width::W8, value: 0 })
}

/// ENDPT value of a re-enabled non-zero endpoint.
pub open spec fn endpt_value(t: EndpointType) -> u32 {
    ENDPT_EPHSHK | ENDPT_EPTXEN | ENDPT_EPRXEN | (if t is Control { 0u32 } else { ENDPT_EPCTLDIS })
}

/// Program that re-arms and re-enables the allocated endpoints below `n`
/// (from 1).
pub open spec fn reconfig_ops(bdt_base: u32, buf_base: u32, mask: u16, eps: Seq<EndpointState>, n: int) -> Seq<RegOp>
    decreases n,
{
    if n <= 1 {
        Seq::empty()
    } else {
        let i = n - 1;
        reconfig_ops(bdt_base, buf_base, mask, eps, i) + if allocated(mask, i) && eps[i].ep_type is Some {
            arm_rx_ops(bdt_base, buf_base, i as usize, false, eps[i]) + arm_rx_ops(bdt_base, buf_base, i as usize, true, eps[i])
                + seq![RegOp::Write { addr: endpt_addr(i as usize), width: Width::W8, value: endpt_value(eps[i].ep_type->0) }]
        } else {
            Seq::empty()
        }
    }
}

impl UsbBus {
    /// Create the bus for a BDT at `bdt_base` (512-byte aligned, 64 entries)
    /// and an endpoint buffer pool at `buf_base` (64 buffers of 64 bytes).
    ///
    /// The USB clock is taken from the PLL, which must run at 72, 96 or
    /// 120 MHz (the frozen core clock); the divider is chosen to give 48 MHz.
    /// Returns the bus and the clock setup program.
    pub fn new(clocks: &Clocks, bdt_base: u32, buf_base: u32) -> (r: (UsbBus, Vec<RegOp>))
        requires
            clocks.core_hz() == 72_000_000 || clocks.core_hz() == 96_000_000 || clocks.core_hz() == 120_000_000,
            bdt_base % 512 == 0,
            bdt_base <= 0xFFFF_FFFF - 512,
            buf_base <= 0xFFFF_FFFF - 4096,
        ensures
            r.0.wf(),
            r.0.bdt() == bdt_base,
            r.0.bufs() == buf_base,
            r.0.mask() == 0,
            r.0.eps() == Seq::new(16, |i: int| EndpointState::spec_new()),
            clocks.core_hz() as int * (if r.0.divider().0 { 2int } else { 1int }) == 48_000_000 * (r.0.divider().1 as int + 1),
            r.1@ == usb_clock_ops(r.0.divider().0, r.0.divider().1),
    {
        let (usb_frac, usb_div) = usb_clock_divider(clocks.core_clk().to_raw());
        let mut endpoints: Vec<EndpointState> = Vec::new();
        let mut i: usize = 0;
        while i < NUM_ENDPOINTS
            invariant
                i <= NUM_ENDPOINTS,
                endpoints@ == Seq::new(i as nat, |j: int| EndpointState::spec_new()),
            decreases NUM_ENDPOINTS - i,
        {
            endpoints.push(EndpointState::new());
            i = i + 1;
        }
        let bus = UsbBus { endpoints, ep_alloc_mask: 0, bdt_base, buf_base, usb_frac, usb_div };
        let ops = bus.clock_ops();
        (bus, ops)
    }

    fn clock_ops(&self) -> (r: Vec<RegOp>)
        requires
            self.wf(),
        ensures
            r@ == usb_clock_ops(self.divider().0, self.divider().1),
    {
        let mut ops: Vec<RegOp> = Vec::new();
        ops.push(RegOp::Modify { addr: SIM_SOPT2, width: Width::W32, clear: 0x0005_0000, set: 0x0005_0000 });
        let frac: u32 = if self.usb_frac { 1 } else { 0 };
        ops.push(RegOp::Write { addr: SIM_CLKDIV2, width: Width::W32, value: ((self.usb_div as u32) << 1u32) | frac });
        ops.push(RegOp::Modify { addr: SIM_SCGC4, width: Width::W32, clear: 0, set: 0x0004_0000 });
        ops
    }

    /// Reset EP0's state and arm it for control transfers.
    fn configure_ep0(&mut self) -> (r: Vec<RegOp>)
        requires
            old(self).wf(),
        ensures
            final(self).wf(),
            final(self).mask() == old(self).mask(),
            final(self).bdt() == old(self).bdt(),
            final(self).bufs() == old(self).bufs(),
            final(self).divider() == old(self).divider(),
            final(self).eps() == old(self).eps().update(0, reset_endpoint(old(self).eps()[0])),
            r@ == ep0_ops(old(self).bdt(), old(self).bufs(), reset_endpoint(old(self).eps()[0])),
    {
        let mut ep0 = self.endpoints[0];
        ep0.tx_data_toggle = false;
        ep0.rx_data_toggle = false;
        ep0.tx_odd = false;
        ep0.rx_odd = false;
        ep0.rx_ready = false;
        ep0.rx_setup = false;
        ep0.stalled_in = false;
        ep0.stalled_out = false;
        self.endpoints.set(0, ep0);
        let mut ops = self.arm_rx(0, false, ep0);
        let mut odd = self.arm_rx(0, true, ep0);
        ops.append(&mut odd);
        ops.push(RegOp::Write { addr: USB0_ENDPT0, width: Width::W8, value: ENDPT_EPHSHK | ENDPT_EPTXEN | ENDPT_EPRXEN });
        ops
    }

    /// Set the device address (7 bits).
    pub fn set_device_address(&self, addr: u8) -> (r: Vec<RegOp>)
        ensures
            r@ == seq![RegOp::Write { addr: USB0_ADDR, width: Width::W8, value: (addr & 0x7F) as u32 }],
    {
        let mut ops: Vec<RegOp> = Vec::new();
        ops.push(RegOp::Write { addr: USB0_ADDR, width: Width::W8, value: (addr & 0x7F) as u32 });
        ops
    }

    /// Suspend: nothing is written. Asserting USBCTRL.SUSP would make the
    /// transceiver ignore the host's bus reset.
    pub fn suspend(&self) -> (r: Vec<RegOp>)
        ensures
            r@ == Seq::<RegOp>::empty(),
    {
        Vec::new()
    }

    /// Resume: take the transceiver out of suspend.
    pub fn resume(&self) -> (r: Vec<RegOp>)
        ensures
            r@ == seq![RegOp::Modify { addr: USB0_USBCTRL, width: Width::W8, clear: 0x80, set: 0 }],
    {
        let mut ops: Vec<RegOp> = Vec::new();
        ops.push(RegOp::Modify { addr: USB0_USBCTRL, width: Width::W8, clear: 0x80, set: 0 });
        ops
    }

    /// Force a bus reset: the program that drops the D+ pull-up, and the one
    /// that restores it after the host has seen the disconnect.
    pub fn force_reset(&self) -> (r: (Vec<RegOp>, Vec<RegOp>))
        ensures
            r.0@ == seq![RegOp::Write { addr: USB0_CTL, width: Width::W8, value: 0 }],
            r.1@ == seq![RegOp::Write { addr: USB0_CTL, width: Width::W8, value: CTL_USBENSOFEN }],
    {
        let mut off: Vec<RegOp> = Vec::new();
        off.push(RegOp::Write { addr: USB0_CTL, width: Width::W8, value: 0 });
        let mut on: Vec<RegOp> = Vec::new();
        on.push(RegOp::Write { addr: USB0_CTL, width: Width::W8, value: CTL_USBENSOFEN });
        (off, on)
    }
}

} // verus!

verus! {

/// The register program that initializes the USB module.
pub open spec fn enable_ops(bdt_base: u32, buf_base: u32, frac: bool, div: u8, s0: EndpointState) -> Seq<RegOp> {
    usb_clock_ops(frac, div) + seq![
        RegOp::Write { addr: USB0_USBTRC0, width: Width::W8, value: 0x80 },
        RegOp::WaitUntil { addr: USB0_USBTRC0, width: Width::W8, mask: 0x80, value: 0 },
        RegOp::Write { addr: USB0_BDTPAGE1, width: Width::W8, value: ((bdt_base >> 9u32) & 0x7F) << 1u32 },
        RegOp::Write { addr: USB0_BDTPAGE2, width: Width::W8, value: (bdt_base >> 16u32) & 0xFF },
        RegOp::Write { addr: USB0_BDTPAGE3, width: Width::W8, value: bdt_base >> 24u32 },
        RegOp::Write { addr: USB0_ISTAT, width: Width::W8, value: 0xFF },
        RegOp::Write { addr: USB0_ERRSTAT, width: Width::W8, value: 0xFF },
        RegOp::Write { addr: USB0_ERREN, width: Width::W8, value: 0xFF },
        RegOp::Write { addr: USB0_INTEN, width: Width::W8, value: 0xBB },
        RegOp::Write { addr: USB0_USBCTRL, width: Width::W8, value: 0 },
    ] + ep0_ops(bdt_base, buf_base, s0) + seq![
        RegOp::Modify { addr: USB0_USBTRC0, width: Width::W8, clear: 0, set: 0x40 },
        RegOp::Write { addr: USB0_CTL, width: Width::W8, value: CTL_USBENSOFEN },
        RegOp::Write { addr: USB0_OTGCTL, width: Width::W8, value: 0 },
        RegOp::Write { addr: USB0_CONTROL, width: Width::W8, value: 0x10 },
    ]
}

impl UsbBus {
    /// Initialize the USB module: clock, module reset, BDT base, status
    /// clear, interrupt enables, EP0 (both receive banks armed), module
    /// enable and the D+ pull-up.
    pub fn enable(&mut self) -> (r: Vec<RegOp>)
        requires
            old(self).wf(),
        ensures
            final(self).wf(),
            final(self).mask() == old(self).mask(),
            final(self).bdt() == old(self).bdt(),
            final(self).bufs() == old(self).bufs(),
            final(self).divider() == old(self).divider(),
            final(self).eps() == old(self).eps().update(0, reset_endpoint(old(self).eps()[0])),
            r@ == enable_ops(old(self).bdt(), old(self).bufs(), old(self).divider().0, old(self).divider().1,
                reset_endpoint(old(self).eps()[0])),
    {
        let mut ops = self.clock_ops();
        let bdt = self.bdt_base;
        ops.push(RegOp::Write { addr: USB0_USBTRC0, width: Width::W8, value: 0x80 });
        ops.push(RegOp::WaitUntil { addr: USB0_USBTRC0, width: Width::W8, mask: 0x80, value: 0 });
        ops.push(RegOp::Write { addr: USB0_BDTPAGE1, width: Width::W8, value: ((bdt >> 9u32) & 0x7F) << 1u32 });
        ops.push(RegOp::Write { addr: USB0_BDTPAGE2, width: Width::W8, value: (bdt >> 16u32) & 0xFF });
        ops.push(RegOp::Write { addr: USB0_BDTPAGE3, width: Width::W8, value: bdt >> 24u32 });
        ops.push(RegOp::Write { addr: USB0_ISTAT, width: Width::W8, value: 0xFF });
        ops.push(RegOp::Write { addr: USB0_ERRSTAT, width: Width::W8, value: 0xFF });
        ops.push(RegOp::Write { addr: USB0_ERREN, width: Width::W8, value: 0xFF });
        ops.push(RegOp::Write { addr: USB0_INTEN, width: Width::W8, value: 0xBB });
        ops.push(RegOp::Write { addr: USB0_USBCTRL, width: Width::W8, value: 0 });
        let mut ep0 = self.configure_ep0();
        ops.append(&mut ep0);
        ops.push(RegOp::Modify { addr: USB0_USBTRC0, width: Width::W8, clear: 0, set: 0x40 });
        ops.push(RegOp::Write { addr: USB0_CTL, width: Width::W8, value: CTL_USBENSOFEN });
        ops.push(RegOp::Write { addr: USB0_OTGCTL, width: Width::W8, value: 0 });
        ops.push(RegOp::Write { addr: USB0_CONTROL, width: Width::W8, value: 0x10 });
        ops
    }

    /// Handle a bus reset: address 0, all BDT entries cleared, ping-pong
    /// pointers reset, every endpoint back to DATA0 / even bank / idle,
    /// endpoints 1-15 disabled, EP0 re-armed, allocated endpoints re-armed
    /// and re-enabled, status flags cleared.
    pub fn reset(&mut self) -> (r: Vec<RegOp>)
        requires
            old(self).wf(),
        ensures
            final(self).wf(),
            final(self).mask() == old(self).mask(),
            final(self).bdt() == old(self).bdt(),
            final(self).bufs() == old(self).bufs(),
            final(self).divider() == old(self).divider(),
            final(self).eps() == Seq::new(16, |i: int| reset_endpoint(old(self).eps()[i])),
            r@ == seq![RegOp::Write { addr: USB0_ADDR, width: Width::W8, value: 0 }] + clear_bdt_ops(old(self).bdt())
                + seq![
                RegOp::Write { addr: USB0_CTL, width: Width::W8, value: CTL_USBENSOFEN | CTL_ODDRST },
                RegOp::Write { addr: USB0_CTL, width: Width::W8, value: CTL_USBENSOFEN },
            ] + disable_eps_ops() + ep0_ops(old(self).bdt(), old(self).bufs(), reset_endpoint(old(self).eps()[0]))
                + reconfig_ops(old(self).bdt(), old(self).bufs(), old(self).mask(),
                Seq::new(16, |i: int| reset_endpoint(old(self).eps()[i])), 16) + seq![
                RegOp::Write { addr: USB0_ISTAT, width: Width::W8, value: 0xFF },
                RegOp::Write { addr: USB0_ERRSTAT, width: Width::W8, value: 0xFF },
            ],
    {
        let ghost old_eps = self.eps();
        let ghost reset_eps = Seq::new(16, |i: int| reset_endpoint(old_eps[i]));
        let mut ops: Vec<RegOp> = Vec::new();
        ops.push(RegOp::Write { addr: USB0_ADDR, width: Width::W8, value: 0 });
        let ghost p0 = ops@;
        let mut k: usize = 0;
        while k < 128
            invariant
                self.wf(),
                k <= 128,
                ops@ == p0 + clear_bdt_ops(self.bdt()).take(k as int),
            decreases 128 - k,
        {
            let entry = self.bdt_desc_addr(k / 2);
            if k % 2 == 0 {
                ops.push(RegOp::Write { addr: entry + 4, width: Width::W32, value: 0 });
            } else {
                ops.push(RegOp::Write { addr: entry, width: Width::W32, value: 0 });
            }
            assert(clear_bdt_ops(self.bdt()).take(k as int + 1) == clear_bdt_ops(self.bdt()).take(k as int).push(
                clear_bdt_ops(self.bdt())[k as int],
            ));
            k = k + 1;
        }
        assert(clear_bdt_ops(self.bdt()).take(128) == clear_bdt_ops(self.bdt()));
        ops.push(RegOp::Write { addr: USB0_CTL, width: Width::W8, value: CTL_USBENSOFEN | CTL_ODDRST });
        ops.push(RegOp::Write { addr: USB0_CTL, width: Width::W8, value: CTL_USBENSOFEN });
        let mut i: usize = 0;
        while i < NUM_ENDPOINTS
            invariant
                self.wf(),
                i <= NUM_ENDPOINTS,
                self.mask() == old(self).mask(),
                self.bdt() == old(self).bdt(),
                self.bufs() == old(self).bufs(),
                self.divider() == old(self).divider(),
                forall|j: int| 0 <= j < i ==> self.eps()[j] == reset_endpoint(old_eps[j]),
                forall|j: int| i <= j < 16 ==> self.eps()[j] == old_eps[j],
                ops@ == p0 + clear_bdt_ops(old(self).bdt()) + seq![
                    RegOp::Write { addr: USB0_CTL, width: Width::W8, value: CTL_USBENSOFEN | CTL_ODDRST },
                    RegOp::Write { addr: USB0_CTL, width: Width::W8, value: CTL_USBENSOFEN },
                ],
            decreases NUM_ENDPOINTS - i,
        {
            let mut st = self.endpoints[i];
            st.tx_data_toggle = false;
            st.rx_data_toggle = false;
            st.tx_odd = false;
            st.rx_odd = false;
            st.rx_ready = false;
            st.rx_setup = false;
            st.stalled_in = false;
            st.stalled_out = false;
            assert(st == reset_endpoint(old_eps[i as int]));
            self.endpoints.set(i, st);
            i = i + 1;
        }
        assert(self.eps() == reset_eps);
        let ghost p1 = ops@;
        let mut e: usize = 1;
        while e < NUM_ENDPOINTS
            invariant
                self.wf(),
                1 <= e <= NUM_ENDPOINTS,
                self.bdt() == old(self).bdt(),
                self.eps() == reset_eps,
                ops@ == p1 + disable_eps_ops().take(e as int - 1),
            decreases NUM_ENDPOINTS - e,
        {
            ops.push(RegOp::Write { addr: USB0_ENDPT0 + 4 * (e as u32), width: Width::W8, value: 0 });
            assert(disable_eps_ops().take(e as int) == disable_eps_ops().take(e as int - 1).push(
                disable_eps_ops()[e as int - 1],
            ));
            e = e + 1;
        }
        assert(disable_eps_ops().take(15) == disable_eps_ops());
        let mut ep0 = self.configure_ep0();
        assert(reset_endpoint(reset_eps[0]) == reset_eps[0]);
        assert(self.eps() =~= reset_eps);
        ops.append(&mut ep0);
        let ghost p2 = ops@;
        let mut n: usize = 1;
        while n < NUM_ENDPOINTS
            invariant
                self.wf(),
                1 <= n <= NUM_ENDPOINTS,
                self.bdt() == old(self).bdt(),
                self.bufs() == old(self).bufs(),
                self.mask() == old(self).mask(),
                self.eps() == reset_eps,
                ops@ == p2 + reconfig_ops(self.bdt(), self.bufs(), self.mask(), reset_eps, n as int),
            decreases NUM_ENDPOINTS - n,
        {
            let ghost before = ops@;
            if self.ep_alloc_mask & (1u16 << (n as u16)) != 0 {
                match self.endpoints[n].ep_type {
                    Some(t) => {
                        let st = self.endpoints[n];
                        let mut a = self.arm_rx(n, false, st);
                        let mut b = self.arm_rx(n, true, st);
                        ops.append(&mut a);
                        ops.append(&mut b);
                        let ctl: u32 = match t {
                            EndpointType::Control => 0,
                            _ => ENDPT_EPCTLDIS,
                        };
                        ops.push(RegOp::Write {
                            addr: USB0_ENDPT0 + 4 * (n as u32),
                            width: Width::W8,
                            value: ENDPT_EPHSHK | ENDPT_EPTXEN | ENDPT_EPRXEN | ctl,
                        });
                    },
                    None => {},
                }
            }
            assert(ops@ =~= p2 + reconfig_ops(self.bdt(), self.bufs(), self.mask(), reset_eps, n as int + 1));
            n = n + 1;
        }
        ops.push(RegOp::Write { addr: USB0_ISTAT, width: Width::W8, value: 0xFF });
        ops.push(RegOp::Write { addr: USB0_ERRSTAT, width: Width::W8, value: 0xFF });
        ops
    }
}

} // verus!

verus! {

/// Endpoint named by a STAT value (bits 4-7).
pub open spec fn stat_endpoint(stat: u8) -> usize {
    (stat >> 4u8) as usize
}

/// Whether a STAT value reports a transmit (bit 3).
pub open spec fn stat_tx(stat: u8) -> bool {
    stat & 0x08 != 0
}

/// Whether a STAT value reports the odd bank (bit 2).
pub open spec fn stat_odd(stat: u8) -> bool {
    stat & 0x04 != 0
}

/// One completed token, as STAT reported it, merged into the poll's results.
pub open spec fn merge_token(acc: PollTokens, stat: u8, bd_desc: u32) -> PollTokens {
    let bit: u16 = 1u16 << (stat_endpoint(stat) as u16);
    if stat_tx(stat) {
        PollTokens { ep_in_complete: acc.ep_in_complete | bit, ..acc }
    } else if spec_bd_pid(bd_desc) == PID_SETUP {
        PollTokens { ep_setup: acc.ep_setup | bit, ..acc }
    } else {
        PollTokens { ep_out: acc.ep_out | bit, ..acc }
    }
}

/// A completed token is reported by its direction and PID. A transmit sets
/// the endpoint's bit (STAT bits 4-7) in `ep_in_complete`; a receive whose
/// descriptor carries the SETUP PID (0xD in bits 2-5) sets it in
/// `ep_setup`; any other receive sets it in `ep_out`. The other two masks
/// are left as they were, so a SETUP is never reported as OUT data.
pub proof fn lemma_token_classification(acc: PollTokens, stat: u8, bd_desc: u32)
    ensures
        ({
            let r = merge_token(acc, stat, bd_desc);
            let bit: u16 = 1u16 << ((stat >> 4u8) as u16);
            let is_tx = stat & 0x08 != 0;
            let is_setup = (bd_desc >> 2u32) & 0xF == 0xD;
            &&& is_tx ==> r.ep_in_complete == acc.ep_in_complete | bit && r.ep_out == acc.ep_out
                && r.ep_setup == acc.ep_setup
            &&& !is_tx && is_setup ==> r.ep_setup == acc.ep_setup | bit && r.ep_out == acc.ep_out
                && r.ep_in_complete == acc.ep_in_complete
            &&& !is_tx && !is_setup ==> r.ep_out == acc.ep_out | bit && r.ep_setup == acc.ep_setup
                && r.ep_in_complete == acc.ep_in_complete
            &&& bit != 0
        }),
{
    let x: u32 = (bd_desc >> 2u32) & 0xF;
    assert(x <= 0xF) by (bit_vector)
        requires
            x == (bd_desc >> 2u32) & 0xF,
    ;
    assert(spec_bd_pid(bd_desc) == x as u8);
    assert((x as u8 == 0x0Du8) == (x == 0xD));
    let e: u8 = stat >> 4u8;
    assert(e < 16 && (1u16 << (e as u16)) != 0) by (bit_vector)
        requires
            e == stat >> 4u8,
    ;
    assert(stat_endpoint(stat) as u16 == e as u16);
}

/// BDT entry a STAT value points at.
pub fn token_bank(stat: u8) -> (r: usize)
    ensures
        r == spec_bdt_index(stat_endpoint(stat), stat_tx(stat), stat_odd(stat)),
        r < 64,
{
    assert(stat >> 4u8 < 16) by (bit_vector);
    bdt_index((stat >> 4u8) as usize, stat & 0x08 != 0, stat & 0x04 != 0)
}

impl UsbBus {
    /// Service one completed token (ISTAT.TOKDNE was set).
    ///
    /// `stat` is the STAT value read before clearing TOKDNE and `bd_desc`
    /// the descriptor of the bank it names (see [`token_bank`]). Records the
    /// event in `acc`; a receive marks the endpoint's data ready in that
    /// bank. A SETUP also drops both of the endpoint's transmit descriptors
    /// and releases the token freeze by writing CTL whole.
    pub fn poll_token(&mut self, stat: u8, bd_desc: u32, acc: PollTokens) -> (r: (PollTokens, Vec<RegOp>))
        requires
            old(self).wf(),
        ensures
            final(self).wf(),
            final(self).mask() == old(self).mask(),
            final(self).bdt() == old(self).bdt(),
            final(self).bufs() == old(self).bufs(),
            final(self).divider() == old(self).divider(),
            r.0 == merge_token(acc, stat, bd_desc),
            ({
                let ep = stat_endpoint(stat);
                let s = old(self).eps()[ep as int];
                let setup = spec_bd_pid(bd_desc) == PID_SETUP;
                if stat_tx(stat) {
                    &&& final(self).eps() == old(self).eps()
                    &&& r.1@ == seq![RegOp::Write { addr: USB0_ISTAT, width: Width::W8, value: ISTAT_TOKDNE as u32 }]
                } else {
                    &&& final(self).eps() == old(self).eps().update(ep as int, EndpointState {
                        rx_setup: if setup { true } else { s.rx_setup },
                        rx_ready: true,
                        rx_complete_odd: stat_odd(stat),
                        ..s
                    })
                    &&& r.1@ == if setup {
                        seq![
                            RegOp::Write { addr: USB0_ISTAT, width: Width::W8, value: ISTAT_TOKDNE as u32 },
                            RegOp::Write { addr: bdt_desc_addr_of(old(self).bdt(), spec_bdt_index(ep, true, false) as int), width: Width::W32, value: 0 },
                            RegOp::Write { addr: bdt_desc_addr_of(old(self).bdt(), spec_bdt_index(ep, true, true) as int), width: Width::W32, value: 0 },
                            RegOp::Write { addr: USB0_CTL, width: Width::W8, value: CTL_USBENSOFEN },
                        ]
                    } else {
                        seq![RegOp::Write { addr: USB0_ISTAT, width: Width::W8, value: ISTAT_TOKDNE as u32 }]
                    }
                }
            }),
    {
        assert(stat >> 4u8 < 16) by (bit_vector);
        let ep = (stat >> 4u8) as usize;
        let is_tx = stat & 0x08 != 0;
        let is_odd = stat & 0x04 != 0;
        let bit: u16 = 1u16 << (ep as u16);
        let mut acc = acc;
        let mut ops: Vec<RegOp> = Vec::new();
        ops.push(RegOp::Write { addr: USB0_ISTAT, width: Width::W8, value: ISTAT_TOKDNE as u32 });
        if is_tx {
            acc.ep_in_complete = acc.ep_in_complete | bit;
        } else {
            let mut state = self.endpoints[ep];
            if bd_pid(bd_desc) == PID_SETUP {
                acc.ep_setup = acc.ep_setup | bit;
                state.rx_setup = true;
                let even_tx = self.bdt_desc_addr(bdt_index(ep, true, false));
                let odd_tx = self.bdt_desc_addr(bdt_index(ep, true, true));
                ops.push(RegOp::Write { addr: even_tx, width: Width::W32, value: 0 });
                ops.push(RegOp::Write { addr: odd_tx, width: Width::W32, value: 0 });
                ops.push(RegOp::Write { addr: USB0_CTL, width: Width::W8, value: CTL_USBENSOFEN });
            } else {
                acc.ep_out = acc.ep_out | bit;
            }
            state.rx_ready = true;
            state.rx_complete_odd = is_odd;
            self.endpoints.set(ep, state);
        }
        (acc, ops)
    }

    /// Finish a poll: `istat` and `errstat` are read after the tokens were
    /// serviced, `acc` holds the serviced tokens.
    ///
    /// A bus reset wins; otherwise STALL, ERROR (with all error flags) and
    /// SOFTOK are cleared; serviced tokens are reported; only when there
    /// were none are SLEEP and then RESUME reported.
    pub fn poll_finish(&self, istat: u8, errstat: u8, acc: PollTokens) -> (r: (PollResult, Vec<RegOp>))
        ensures
            istat & ISTAT_USBRST != 0 ==> r.0 == PollResult::Reset && r.1@ == seq![
                RegOp::Write { addr: USB0_ISTAT, width: Width::W8, value: ISTAT_USBRST as u32 },
            ],
            istat & ISTAT_USBRST == 0 ==> {
                let cleared = (if istat & ISTAT_STALL != 0 {
                    seq![RegOp::Write { addr: USB0_ISTAT, width: Width::W8, value: ISTAT_STALL as u32 }]
                } else {
                    Seq::<RegOp>::empty()
                }) + (if istat & ISTAT_ERROR != 0 {
                    seq![
                        RegOp::Write { addr: USB0_ERRSTAT, width: Width::W8, value: errstat as u32 },
                        RegOp::Write { addr: USB0_ISTAT, width: Width::W8, value: ISTAT_ERROR as u32 },
                    ]
                } else {
                    Seq::<RegOp>::empty()
                }) + (if istat & ISTAT_SOFTOK != 0 {
                    seq![RegOp::Write { addr: USB0_ISTAT, width: Width::W8, value: ISTAT_SOFTOK as u32 }]
                } else {
                    Seq::<RegOp>::empty()
                });
                if acc.ep_out != 0 || acc.ep_in_complete != 0 || acc.ep_setup != 0 {
                    r.0 == PollResult::Data {
                        ep_out: acc.ep_out,
                        ep_in_complete: acc.ep_in_complete,
                        ep_setup: acc.ep_setup,
                    } && r.1@ == cleared
                } else if istat & ISTAT_SLEEP != 0 {
                    r.0 == PollResult::Suspend && r.1@ == cleared + seq![
                        RegOp::Write { addr: USB0_ISTAT, width: Width::W8, value: ISTAT_SLEEP as u32 },
                    ]
                } else if istat & ISTAT_RESUME != 0 {
                    r.0 == PollResult::Resume && r.1@ == cleared + seq![
                        RegOp::Write { addr: USB0_ISTAT, width: Width::W8, value: ISTAT_RESUME as u32 },
                    ]
                } else {
                    r.0 == PollResult::NoEvent && r.1@ == cleared
                }
            },
    {
        let mut ops: Vec<RegOp> = Vec::new();
        if istat & ISTAT_USBRST != 0 {
            ops.push(RegOp::Write { addr: USB0_ISTAT, width: Width::W8, value: ISTAT_USBRST as u32 });
            return (PollResult::Reset, ops);
        }
        if istat & ISTAT_STALL != 0 {
            ops.push(RegOp::Write { addr: USB0_ISTAT, width: Width::W8, value: ISTAT_STALL as u32 });
        }
        if istat & ISTAT_ERROR != 0 {
            ops.push(RegOp::Write { addr: USB0_ERRSTAT, width: Width::W8, value: errstat as u32 });
            ops.push(RegOp::Write { addr: USB0_ISTAT, width: Width::W8, value: ISTAT_ERROR as u32 });
        }
        if istat & ISTAT_SOFTOK != 0 {
            ops.push(RegOp::Write { addr: USB0_ISTAT, width: Width::W8, value: ISTAT_SOFTOK as u32 });
        }
        if acc.ep_out != 0 || acc.ep_in_complete != 0 || acc.ep_setup != 0 {
            return (PollResult::Data {
                ep_out: acc.ep_out,
                ep_in_complete: acc.ep_in_complete,
                ep_setup: acc.ep_setup,
            }, ops);
        }
        if istat & ISTAT_SLEEP != 0 {
            ops.push(RegOp::Write { addr: USB0_ISTAT, width: Width::W8, value: ISTAT_SLEEP as u32 });
            return (PollResult::Suspend, ops);
        }
        if istat & ISTAT_RESUME != 0 {
            ops.push(RegOp::Write { addr: USB0_ISTAT, width: Width::W8, value: ISTAT_RESUME as u32 });
            return (PollResult::Resume, ops);
        }
        (PollResult::NoEvent, ops)
    }
}

} // verus!
