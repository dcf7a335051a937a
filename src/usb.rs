use vstd::prelude::*;

use crate::bus::RegWrite;

verus! {

pub const USB_BASE: usize = 0x01500000;
pub const USB_GAHBCFG: usize = USB_BASE + 0x008;
pub const FLAG_NPTXFEMPLVL: usize = 1 << 5;
pub const USB_GUSBCFG: usize = USB_BASE + 0x00c;
pub const USB_GINTSTS: usize = USB_BASE + 0x014;
pub const FLAG_RXFLVL: usize = 1 << 4;
pub const FLAG_OEPINT: usize = 1 << 19;
pub const USB_GRXSTSP: usize = USB_BASE + 0x020;
pub const USB_DCTL: usize = USB_BASE + 0x804;
pub const FLAG_SOFT_RESET1: usize = 1 << 8;
pub const FLAG_SOFT_RESET2: usize = 1 << 10;
pub const USB_DSTS: usize = USB_BASE + 0x808;
pub const USB_DTXFSIZ1: usize = USB_BASE + 0x104;
pub const USB_DIEPCTL1: usize = USB_BASE + 0x920;
pub const USB_DIEPINT1: usize = USB_BASE + 0x928;
pub const USB_DIEPTSIZ1: usize = USB_BASE + 0x930;
pub const USB_DOEPCTL1: usize = USB_BASE + 0xb20;
pub const FLAG_USB_ACTIVE_EP: usize = 1 << 15;
pub const FLAG_CNAK: usize = 1 << 26;
pub const FLAG_EPENA: usize = 1 << 31;
pub const USB_DOEPINT1: usize = USB_BASE + 0xb28;
pub const FLAG_XFERCOMPL: usize = 1 << 0;
pub const FLAG_SETUP_COMPLETED: usize = 1 << 3;
pub const USB_DOEPTSIZ1: usize = USB_BASE + 0xb30;
pub const USB_RX_FIFO: usize = USB_BASE + 0x1000;
pub const USB_TX_FIFO: usize = USB_BASE + 0x2000;

/// Bulk endpoint type, in the endpoint-type field (bits 18-19).
pub const EP_TYPE_BULK: usize = 2 << 18;
/// One packet, in the packet-count field (bit 19 up).
pub const ONE_PACKET: usize = 1 << 19;
/// Transmit FIFO number 1 (bits 22 up).
pub const TX_FIFO_1: usize = 1 << 22;

/// Capacity of the receive buffer, in bytes.
pub const RX_BUF_LEN: usize = 512;
/// Polls of the receive path after which a disabled OUT endpoint is re-armed.
pub const RX_POLL_LIMIT: u32 = 1_000_000;
/// Polls of the transmit path before a byte is given up.
pub const TX_POLL_LIMIT: u32 = 10_000_000;

/// Maximum packet size for the speed the core reports in `DSTS`: 512 bytes
/// at high speed, 64 otherwise.
pub open spec fn mps_for(dsts: usize) -> usize {
    if (dsts >> 1) & 0x3 == 0 {
        512
    } else {
        64
    }
}

pub open spec fn out_ctl_value(mps: usize) -> usize {
    FLAG_EPENA | FLAG_CNAK | EP_TYPE_BULK | FLAG_USB_ACTIVE_EP | mps
}

/// The fix-up of the AHB configuration: the non-periodic TX FIFO empty level
/// bit is cleared when it is set.
pub open spec fn ahb_fixup_of(gahbcfg: usize) -> Option<RegWrite> {
    if gahbcfg & FLAG_NPTXFEMPLVL != 0 {
        Some(RegWrite { addr: USB_GAHBCFG, value: gahbcfg & !FLAG_NPTXFEMPLVL })
    } else {
        None
    }
}

/// The fix-up of the device control: when either soft-reset bit is set, both
/// are forced on.
pub open spec fn soft_reset_fixup_of(dctl: usize) -> Option<RegWrite> {
    if dctl & FLAG_SOFT_RESET1 != 0 || dctl & FLAG_SOFT_RESET2 != 0 {
        Some(RegWrite { addr: USB_DCTL, value: dctl | FLAG_SOFT_RESET1 | FLAG_SOFT_RESET2 })
    } else {
        None
    }
}

/// Arming OUT endpoint 1 and configuring IN endpoint 1 for bulk transfers of
/// `mps`-byte packets.
pub open spec fn endpoint_writes(mps: usize) -> Seq<RegWrite> {
    seq![
        RegWrite { addr: USB_DOEPTSIZ1, value: ONE_PACKET | mps },
        RegWrite { addr: USB_DOEPCTL1, value: out_ctl_value(mps) },
        RegWrite {
            addr: USB_DIEPCTL1,
            value: FLAG_CNAK | TX_FIFO_1 | EP_TYPE_BULK | FLAG_USB_ACTIVE_EP | mps,
        },
    ]
}

pub fn ahb_fixup(gahbcfg: usize) -> (r: Option<RegWrite>)
    ensures
        r == ahb_fixup_of(gahbcfg),
{
    if gahbcfg & FLAG_NPTXFEMPLVL != 0 {
        Some(RegWrite { addr: USB_GAHBCFG, value: gahbcfg & !FLAG_NPTXFEMPLVL })
    } else {
        None
    }
}

pub fn soft_reset_fixup(dctl: usize) -> (r: Option<RegWrite>)
    ensures
        r == soft_reset_fixup_of(dctl),
{
    if dctl & FLAG_SOFT_RESET1 != 0 || dctl & FLAG_SOFT_RESET2 != 0 {
        Some(RegWrite { addr: USB_DCTL, value: dctl | FLAG_SOFT_RESET1 | FLAG_SOFT_RESET2 })
    } else {
        None
    }
}

/// Whether the core interrupt status says the receive FIFO holds a status entry.
pub fn rx_fifo_ready(gintsts: usize) -> (r: bool)
    ensures
        r == (gintsts & FLAG_RXFLVL != 0),
{
    gintsts & FLAG_RXFLVL != 0
}

/// Whether the core interrupt status says an OUT endpoint has an event.
pub fn out_endpoint_event(gintsts: usize) -> (r: bool)
    ensures
        r == (gintsts & FLAG_OEPINT != 0),
{
    gintsts & FLAG_OEPINT != 0
}

/// Whether an OUT endpoint control value shows the endpoint disabled.
pub fn out_endpoint_disabled(doepctl: usize) -> (r: bool)
    ensures
        r == (doepctl & FLAG_EPENA == 0),
{
    doepctl & FLAG_EPENA == 0
}

/// Whether an IN endpoint interrupt status reports the transfer complete.
pub fn in_transfer_done(diepint: usize) -> (r: bool)
    ensures
        r == (diepint & FLAG_XFERCOMPL != 0),
{
    diepint & FLAG_XFERCOMPL != 0
}

/// Counts polls of the receive path; every time the count passes
/// `RX_POLL_LIMIT` it says so once and starts over.
pub struct RxWatchdog {
    polls: u32,
}

impl RxWatchdog {
    pub closed spec fn polls(&self) -> u32 {
        self.polls
    }

    pub fn new() -> (r: Self)
        ensures
            r.polls() == 0,
    {
        Self { polls: 0 }
    }

    /// Counts one poll; true when the count passed the limit, which resets it.
    pub fn tick(&mut self) -> (r: bool)
        requires
            old(self).polls() <= RX_POLL_LIMIT,
        ensures
            r == (old(self).polls() + 1 > RX_POLL_LIMIT),
            final(self).polls() == if r {
                0
            } else {
                (old(self).polls() + 1) as u32
            },
            final(self).polls() <= RX_POLL_LIMIT,
    {
        self.polls = self.polls + 1;
        if self.polls > RX_POLL_LIMIT {
            self.polls = 0;
            true
        } else {
            false
        }
    }
}

/// Byte count of a popped receive status that carries data (an OUT or SETUP
/// packet with at least one byte); `None` for any other status.
pub open spec fn data_bytes(rx_status: usize) -> Option<usize> {
    let kind = (rx_status >> 17) & 0xf;
    let count = (rx_status >> 4) & 0x7ff;
    if (kind == 2 || kind == 6) && count > 0 {
        Some(count)
    } else {
        None
    }
}

/// Byte `k` of the FIFO words, little-endian within each 32-bit word.
pub open spec fn fifo_byte(words: Seq<usize>, k: int) -> u8 {
    ((words[k / 4] >> (8 * (k % 4)) as usize) & 0xff) as u8
}

pub open spec fn min(a: int, b: int) -> int {
    if a <= b {
        a
    } else {
        b
    }
}

/// USB device controller state: the bytes received and not yet consumed, and
/// the maximum packet size of the bulk endpoints.
pub struct Usb {
    rx_buf: [u8; 512],
    rx_ptr: usize,
    rx_cnt: usize,
    ep_mps: usize,
}

impl Usb {
    #[verifier::type_invariant]
    closed spec fn consistent(self) -> bool {
        self.rx_ptr <= self.rx_cnt <= RX_BUF_LEN
    }

    /// Received bytes not yet consumed, oldest first.
    pub closed spec fn pending(&self) -> Seq<u8> {
        self.rx_buf@.subrange(self.rx_ptr as int, self.rx_cnt as int)
    }

    pub closed spec fn mps(&self) -> usize {
        self.ep_mps
    }

    pub fn new() -> (r: Self)
        ensures
            r.pending().len() == 0,
            r.mps() == 0,
    {
        Self { rx_buf: [0; 512], rx_ptr: 0, rx_cnt: 0, ep_mps: 0 }
    }

    pub fn ep_mps(&self) -> (r: usize)
        ensures
            r == self.mps(),
    {
        self.ep_mps
    }

    /// Takes the device status as read, records the packet size its speed
    /// allows and returns the endpoint configuration writes.
    pub fn configure_endpoints(&mut self, dsts: usize) -> (r: Vec<RegWrite>)
        ensures
            r@ == endpoint_writes(mps_for(dsts)),
            final(self).mps() == mps_for(dsts),
            final(self).pending() == old(self).pending(),
    {
        let mps: usize = if (dsts >> 1) & 0x3 == 0 {
            512
        } else {
            64
        };
        proof {
            use_type_invariant(&*self);
        }
        self.ep_mps = mps;
        let r = vec![
            RegWrite { addr: USB_DOEPTSIZ1, value: ONE_PACKET | mps },
            RegWrite {
                addr: USB_DOEPCTL1,
                value: FLAG_EPENA | FLAG_CNAK | EP_TYPE_BULK | FLAG_USB_ACTIVE_EP | mps,
            },
            RegWrite {
                addr: USB_DIEPCTL1,
                value: FLAG_CNAK | TX_FIFO_1 | EP_TYPE_BULK | FLAG_USB_ACTIVE_EP | mps,
            },
        ];
        assert(r@ =~= endpoint_writes(mps));
        r
    }

    /// The oldest received byte not yet consumed, if any.
    pub fn take_byte(&mut self) -> (r: Option<u8>)
        ensures
            old(self).pending().len() > 0 ==> r == Some(old(self).pending()[0])
                && final(self).pending() == old(self).pending().drop_first(),
            old(self).pending().len() == 0 ==> r.is_none() && final(self).pending() == old(
                self,
            ).pending(),
            final(self).mps() == old(self).mps(),
    {
        proof {
            use_type_invariant(&*self);
        }
        if self.rx_ptr < self.rx_cnt {
            let b = self.rx_buf[self.rx_ptr];
            self.rx_ptr = self.rx_ptr + 1;
            proof {
                assert(self.pending() =~= old(self).pending().drop_first());
            }
            Some(b)
        } else {
            None
        }
    }

    /// Takes a popped receive status and, for a data packet, the FIFO words
    /// that hold it; the packet's bytes, up to the buffer's capacity, replace
    /// the buffer. Other statuses leave it as it was.
    pub fn accept_packet(&mut self, rx_status: usize, words: &[usize])
        requires
            data_bytes(rx_status) matches Some(n) ==> words@.len() == (n + 3) / 4,
        ensures
            final(self).mps() == old(self).mps(),
            match data_bytes(rx_status) {
                Some(n) => final(self).pending() == Seq::new(
                    min(n as int, RX_BUF_LEN as int) as nat,
                    |k: int| fifo_byte(words@, k),
                ),
                None => final(self).pending() == old(self).pending(),
            },
    {
        let count = Self::packet_bytes(rx_status);
        if let Some(n) = count {
            let limit = if n < RX_BUF_LEN {
                n
            } else {
                RX_BUF_LEN
            };
            let mut buf = self.rx_buf;
            let mut j: usize = 0;
            while j < limit
                invariant
                    limit <= RX_BUF_LEN,
                    limit <= n,
                    words@.len() == (n + 3) / 4,
                    j <= limit,
                    buf@.len() == RX_BUF_LEN,
                    forall|k: int| 0 <= k < j ==> buf@[k] == fifo_byte(words@, k),
                decreases limit - j,
            {
                let byte = ((words[j / 4] >> (8 * (j % 4))) & 0xff) as u8;
                buf[j] = byte;
                j += 1;
            }
            *self = Usb { rx_buf: buf, rx_ptr: 0, rx_cnt: limit, ep_mps: self.ep_mps };
            proof {
                assert(self.pending() =~= Seq::new(
                    min(n as int, RX_BUF_LEN as int) as nat,
                    |k: int| fifo_byte(words@, k),
                ));
            }
        }
    }

    /// The byte count of a data packet's receive status; `None` for others.
    pub fn packet_bytes(rx_status: usize) -> (r: Option<usize>)
        ensures
            r == data_bytes(rx_status),
            r matches Some(n) ==> n < 0x800,
    {
        let kind = (rx_status >> 17) & 0xf;
        let count = (rx_status >> 4) & 0x7ff;
        assert(count < 0x800) by (bit_vector)
            requires
                count == (rx_status >> 4) & 0x7ff,
        ;
        if (kind == 2 || kind == 6) && count > 0 {
            Some(count)
        } else {
            None
        }
    }

    /// The writes that re-arm OUT endpoint 1 for the next packet.
    pub fn rearm_out(&self) -> (r: Vec<RegWrite>)
        ensures
            r@ == seq![
                RegWrite { addr: USB_DOEPTSIZ1, value: FLAG_OEPINT | self.mps() },
                RegWrite { addr: USB_DOEPCTL1, value: out_ctl_value(self.mps()) },
            ],
    {
        let r = vec![
            RegWrite { addr: USB_DOEPTSIZ1, value: FLAG_OEPINT | self.ep_mps },
            RegWrite {
                addr: USB_DOEPCTL1,
                value: FLAG_EPENA | FLAG_CNAK | EP_TYPE_BULK | FLAG_USB_ACTIVE_EP | self.ep_mps,
            },
        ];
        assert(r@ =~= seq![
            RegWrite { addr: USB_DOEPTSIZ1, value: FLAG_OEPINT | self.mps() },
            RegWrite { addr: USB_DOEPCTL1, value: out_ctl_value(self.mps()) },
        ]);
        r
    }

    /// The writes that send one byte on IN endpoint 1.
    pub fn transmit(&self, b: u8) -> (r: Vec<RegWrite>)
        ensures
            r@ == seq![
                RegWrite { addr: USB_DIEPTSIZ1, value: ONE_PACKET | 1 },
                RegWrite { addr: USB_DIEPCTL1, value: out_ctl_value(self.mps()) },
                RegWrite { addr: USB_TX_FIFO, value: b as usize },
            ],
    {
        let r = vec![
            RegWrite { addr: USB_DIEPTSIZ1, value: ONE_PACKET | 1 },
            RegWrite {
                addr: USB_DIEPCTL1,
                value: FLAG_EPENA | FLAG_CNAK | EP_TYPE_BULK | FLAG_USB_ACTIVE_EP | self.ep_mps,
            },
            RegWrite { addr: USB_TX_FIFO, value: b as usize },
        ];
        assert(r@ =~= seq![
            RegWrite { addr: USB_DIEPTSIZ1, value: ONE_PACKET | 1 },
            RegWrite { addr: USB_DIEPCTL1, value: out_ctl_value(self.mps()) },
            RegWrite { addr: USB_TX_FIFO, value: b as usize },
        ]);
        r
    }
}

/// Whether an OUT endpoint interrupt status reports a finished transfer or
/// setup stage, after which the endpoint is re-armed.
pub fn out_transfer_done(doepint: usize) -> (r: bool)
    ensures
        r == (doepint & FLAG_XFERCOMPL != 0 || doepint & FLAG_SETUP_COMPLETED != 0),
{
    doepint & FLAG_XFERCOMPL != 0 || doepint & FLAG_SETUP_COMPLETED != 0
}

} // verus!
