use vstd::prelude::*;

use crate::bus::RegWrite;
use crate::usb::Usb;

verus! {

/// Command bytes of the download protocol.
pub const SYNC_FLAG: u8 = 0x5a;
pub const DOWNLOAD_FLAG: u8 = 0x7a;
pub const RUN_FLAG: u8 = 0x8a;

/// Acknowledgement bytes.
pub const SYNC_ACK: u8 = 0xa5;
pub const DOWNLOAD_HEADER_ACK: u8 = 0xa1;
pub const DOWNLOAD_COMPLETE_ACK: u8 = 0xa7;
pub const RUN_ACK: u8 = 0xa8;

pub const IRAM1_BASE: usize = 0x100000;
/// The word the jump at the start of IRAM1 reads its target from.
pub const IRAM1_ENTRY_SLOT: usize = IRAM1_BASE + 8;
pub const A53_SUBSYS_CFG: usize = 0x013b138;
pub const A53_SW_RSTEN: usize = 0xf;
/// `ldr pc, [pc]`: jumps to the word stored 8 bytes after it.
pub const JUMP_THROUGH_NEXT_WORD: usize = 0xe59ff000;

/// A command of the protocol, as its first byte names it.
#[derive(Clone, Copy, Debug, PartialEq, Eq, Structural)]
pub enum Command {
    Sync,
    Download,
    Run,
    Unknown(u8),
}

pub open spec fn command_of(b: u8) -> Command {
    if b == SYNC_FLAG {
        Command::Sync
    } else if b == DOWNLOAD_FLAG {
        Command::Download
    } else if b == RUN_FLAG {
        Command::Run
    } else {
        Command::Unknown(b)
    }
}

pub fn decode(b: u8) -> (r: Command)
    ensures
        r == command_of(b),
{
    match b {
        SYNC_FLAG => Command::Sync,
        DOWNLOAD_FLAG => Command::Download,
        RUN_FLAG => Command::Run,
        _ => Command::Unknown(b),
    }
}

/// The big-endian 32-bit value of four bytes.
pub open spec fn be_value(b: Seq<u8>) -> int {
    b[0] * 0x1000000 + b[1] * 0x10000 + b[2] * 0x100 + b[3]
}

pub fn be_u32(b0: u8, b1: u8, b2: u8, b3: u8) -> (r: u32)
    ensures
        r == be_value(seq![b0, b1, b2, b3]),
{
    (b0 as u32) * 0x1000000 + (b1 as u32) * 0x10000 + (b2 as u32) * 0x100 + (b3 as u32)
}

/// The writes that start the application cores at `entry`: a jump through
/// the next-but-one word at the start of IRAM1, the entry in that word, then
/// release of the cores' software reset.
pub open spec fn boot_writes(entry: usize) -> Seq<RegWrite> {
    seq![
        RegWrite { addr: IRAM1_BASE, value: JUMP_THROUGH_NEXT_WORD },
        RegWrite { addr: IRAM1_ENTRY_SLOT, value: entry },
        RegWrite { addr: A53_SUBSYS_CFG, value: A53_SW_RSTEN },
    ]
}

pub fn boot_ap(entry: usize) -> (r: Vec<RegWrite>)
    ensures
        r@ == boot_writes(entry),
{
    let r = vec![
        RegWrite { addr: IRAM1_BASE, value: JUMP_THROUGH_NEXT_WORD },
        RegWrite { addr: IRAM1_ENTRY_SLOT, value: entry },
        RegWrite { addr: A53_SUBSYS_CFG, value: A53_SW_RSTEN },
    ];
    assert(r@ =~= boot_writes(entry));
    r
}

/// What the platform does after a byte was handed to the protocol.
pub enum Action {
    /// Nothing yet: more argument bytes are needed.
    Wait,
    /// Send this byte back.
    Reply(u8),
    /// Send `DOWNLOAD_HEADER_ACK`, receive `size` bytes into memory at `addr`,
    /// then send `DOWNLOAD_COMPLETE_ACK`.
    Download { addr: u32, size: u32 },
    /// Perform the writes, send `ack`; the protocol is then finished.
    Boot { writes: Vec<RegWrite>, ack: u8 },
    /// The byte names no command; report it and go on.
    Unknown(u8),
}

#[derive(Clone, Copy, Debug, PartialEq, Eq, Structural)]
pub enum Mode {
    Idle,
    DownloadArgs,
    RunArgs,
    Finished,
}

/// The download protocol spoken over the USB bulk endpoints: sync, download
/// a payload to an address, run from an address.
pub struct ZteProtocol {
    usb: Usb,
    parser: CommandParser,
}

impl ZteProtocol {
    pub closed spec fn link(&self) -> Usb {
        self.usb
    }

    pub closed spec fn commands(&self) -> CommandParser {
        self.parser
    }

    pub fn new(usb: Usb) -> (r: Self)
        ensures
            r.link() == usb,
            r.commands().mode() == Mode::Idle,
            r.commands().args().len() == 0,
    {
        Self { usb, parser: CommandParser::new() }
    }

    /// The USB device the protocol runs over.
    pub fn usb(&mut self) -> (r: &mut Usb)
        ensures
            *r == old(self).link(),
            final(self).link() == *final(r),
            final(self).commands() == old(self).commands(),
    {
        &mut self.usb
    }

    /// The command parser that the received bytes go through.
    pub fn parser(&mut self) -> (r: &mut CommandParser)
        ensures
            *r == old(self).commands(),
            final(self).commands() == *final(r),
            final(self).link() == old(self).link(),
    {
        &mut self.parser
    }
}

/// Splits the byte stream from the host into commands and their arguments.
pub struct CommandParser {
    mode: Mode,
    args: Vec<u8>,
}

impl CommandParser {
    #[verifier::type_invariant]
    closed spec fn consistent(self) -> bool {
        match self.mode {
            Mode::DownloadArgs => self.args@.len() < 8,
            Mode::RunArgs => self.args@.len() < 4,
            _ => self.args@.len() == 0,
        }
    }

    pub closed spec fn mode(&self) -> Mode {
        self.mode
    }

    /// Argument bytes received so far for the command in progress.
    pub closed spec fn args(&self) -> Seq<u8> {
        self.args@
    }

    pub fn new() -> (r: Self)
        ensures
            r.mode() == Mode::Idle,
            r.args().len() == 0,
    {
        Self { mode: Mode::Idle, args: Vec::new() }
    }

    pub fn mode_now(&self) -> (r: Mode)
        ensures
            r == self.mode(),
    {
        self.mode
    }

    /// Takes the next byte received from the host and says what to do.
    pub fn on_byte(&mut self, b: u8) -> (r: Action)
        ensures
            match old(self).mode() {
                Mode::Idle => match command_of(b) {
                    Command::Sync => final(self).mode() == Mode::Idle && r == Action::Reply(
                        SYNC_ACK,
                    ),
                    Command::Download => final(self).mode() == Mode::DownloadArgs
                        && final(self).args().len() == 0 && r == Action::Wait,
                    Command::Run => final(self).mode() == Mode::RunArgs && final(self).args().len()
                        == 0 && r == Action::Wait,
                    Command::Unknown(c) => final(self).mode() == Mode::Idle && r
                        == Action::Unknown(c),
                },
                Mode::DownloadArgs => {
                    let got = old(self).args().push(b);
                    if got.len() == 8 {
                        &&& final(self).mode() == Mode::Idle
                        &&& r == Action::Download {
                            addr: be_value(got.subrange(0, 4)) as u32,
                            size: be_value(got.subrange(4, 8)) as u32,
                        }
                    } else {
                        final(self).mode() == Mode::DownloadArgs && final(self).args() == got && r
                            == Action::Wait
                    }
                },
                Mode::RunArgs => {
                    let got = old(self).args().push(b);
                    if got.len() == 4 {
                        &&& final(self).mode() == Mode::Finished
                        &&& match r {
                            Action::Boot { writes, ack } => writes@ == boot_writes(
                                be_value(got) as usize,
                            ) && ack == RUN_ACK,
                            _ => false,
                        }
                    } else {
                        final(self).mode() == Mode::RunArgs && final(self).args() == got && r
                            == Action::Wait
                    }
                },
                Mode::Finished => final(self).mode() == Mode::Finished && r == Action::Wait,
            },
    {
        proof {
            use_type_invariant(&*self);
        }
        match self.mode {
            Mode::Idle => match decode(b) {
                Command::Sync => Action::Reply(SYNC_ACK),
                Command::Download => {
                    self.mode = Mode::DownloadArgs;
                    Action::Wait
                },
                Command::Run => {
                    self.mode = Mode::RunArgs;
                    Action::Wait
                },
                Command::Unknown(c) => Action::Unknown(c),
            },
            Mode::DownloadArgs => {
                if self.args.len() == 7 {
                    let a = &self.args;
                    let addr = be_u32(a[0], a[1], a[2], a[3]);
                    let size = be_u32(a[4], a[5], a[6], b);
                    proof {
                        let got = old(self).args().push(b);
                        assert(got.subrange(0, 4) =~= seq![a@[0], a@[1], a@[2], a@[3]]);
                        assert(got.subrange(4, 8) =~= seq![a@[4], a@[5], a@[6], b]);
                    }
                    *self = CommandParser { mode: Mode::Idle, args: Vec::new() };
                    Action::Download { addr, size }
                } else {
                    let mut args = self.args.clone();
                    args.push(b);
                    *self = CommandParser { mode: Mode::DownloadArgs, args };
                    Action::Wait
                }
            },
            Mode::RunArgs => {
                if self.args.len() == 3 {
                    let a = &self.args;
                    let entry = be_u32(a[0], a[1], a[2], b) as usize;
                    proof {
                        let got = old(self).args().push(b);
                        assert(got =~= seq![a@[0], a@[1], a@[2], b]);
                    }
                    let writes = boot_ap(entry);
                    *self = CommandParser { mode: Mode::Finished, args: Vec::new() };
                    Action::Boot { writes, ack: RUN_ACK }
                } else {
                    let mut args = self.args.clone();
                    args.push(b);
                    *self = CommandParser { mode: Mode::RunArgs, args };
                    Action::Wait
                }
            },
            Mode::Finished => Action::Wait,
        }
    }
}

} // verus!
