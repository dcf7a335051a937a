use vstd::prelude::*;

use crate::bus::{make_store, store, BusOp, Driver};
use crate::control::{
    DDR_CONTROL_DFIMISC, DDR_CONTROL_PCTRL_0, DDR_CONTROL_PCTRL_1, DDR_CONTROL_PCTRL_2,
    DDR_CONTROL_PCTRL_3, DDR_CONTROL_SWCTL,
};
use crate::density::{parameter_set, DramSize};
use crate::training::{TrainingEngine, TrainingStatus};

verus! {

pub const DDR_PHY_BASE: usize = 0x154000;

pub const DDR_PHY_DRAM_WIDTH: usize = DDR_PHY_BASE + 0x000;
pub const FLAG_PHY_16BIT: usize = 0x3f;
pub const DDR_PHY_DRAM_TYPE: usize = DDR_PHY_BASE + 0x004;
pub const FLAG_PHY_LPDDR2: usize = 3;
pub const FLAG_TYPE_RESERVED: usize = 1 << 2;
pub const DDR_PHY_TRAINING_CTRL: usize = DDR_PHY_BASE + 0x008;
pub const DDR_PHY_DRAM_RLRW: usize = DDR_PHY_BASE + 0x02c;
pub const READ_LATENCY: usize = 8 << 4;
pub const DDR_PHY_DRAM_WLRW: usize = DDR_PHY_BASE + 0x030;
pub const WRITE_LATENCY: usize = 4;
pub const DDR_PHY_FBDIV: usize = DDR_PHY_BASE + 0x3b0;
pub const FLAG_FBDIV: usize = 0x10;
pub const DDR_PHY_PLLOUT: usize = DDR_PHY_BASE + 0x3b4;
pub const FLAG_PLL_PULL_DOWN: usize = 1 << 1;
pub const FLAG_PHY_PLLOUT_RESERVED: usize = 1 << 3;
pub const FLAG_PLL_CLOCK_OUTPUT_ENABLE: usize = 1 << 4;
pub const DDR_PHY_DIV: usize = DDR_PHY_BASE + 0x3b8;
pub const FLAG_PREDIV: usize = 1 << 1;
pub const FLAG_POSTDIV: usize = 1 << 5;

pub const DDR_PHY_CMD_DRIVE_STRENGTH: usize = DDR_PHY_BASE + 0x44;
pub const DDR_PHY_CK_DRIVE_STRENGTH: usize = DDR_PHY_BASE + 0x58;
pub const DDR_PHY_CK_PULL_UP: usize = DDR_PHY_BASE + 0x64;
pub const DDR_PHY_CMD_PULL_UP: usize = DDR_PHY_BASE + 0x68;

pub const DDR_PHY_A_DQ0_7_PULL_DOWN_DS: usize = DDR_PHY_BASE + 0x080;
pub const DDR_PHY_A_DQ0_7_PULL_DOWN_ODT: usize = DDR_PHY_BASE + 0x084;
pub const DDR_PHY_A_DQ0_7_PULL_UP_DS: usize = DDR_PHY_BASE + 0x0b8;
pub const DDR_PHY_A_DQ0_7_PULL_UP_ODT: usize = DDR_PHY_BASE + 0x0bc;
pub const DDR_PHY_A_DQ8_15_PULL_DOWN_DS: usize = DDR_PHY_BASE + 0x0c0;
pub const DDR_PHY_A_DQ8_15_PULL_DOWN_ODT: usize = DDR_PHY_BASE + 0x0c4;
pub const DDR_PHY_A_DQ8_15_PULL_UP_DS: usize = DDR_PHY_BASE + 0x0f8;
pub const DDR_PHY_A_DQ8_15_PULL_UP_ODT: usize = DDR_PHY_BASE + 0x0fc;
pub const DDR_PHY_B_DQ0_7_PULL_DOWN_DS: usize = DDR_PHY_BASE + 0x100;
pub const DDR_PHY_B_DQ0_7_PULL_DOWN_ODT: usize = DDR_PHY_BASE + 0x104;
pub const DDR_PHY_B_DQ0_7_PULL_UP_DS: usize = DDR_PHY_BASE + 0x138;
pub const DDR_PHY_B_DQ0_7_PULL_UP_ODT: usize = DDR_PHY_BASE + 0x13c;
pub const DDR_PHY_B_DQ8_15_PULL_DOWN_DS: usize = DDR_PHY_BASE + 0x140;
pub const DDR_PHY_B_DQ8_15_PULL_DOWN_ODT: usize = DDR_PHY_BASE + 0x144;
pub const DDR_PHY_B_DQ8_15_PULL_UP_DS: usize = DDR_PHY_BASE + 0x178;
pub const DDR_PHY_B_DQ8_15_PULL_UP_ODT: usize = DDR_PHY_BASE + 0x17c;

pub const DDR_PHY_TRAINING_RESULT_0: usize = DDR_PHY_BASE + 0x3ec;
pub const DDR_PHY_TRAINING_RESULT_1: usize = DDR_PHY_BASE + 0x3f0;
pub const DDR_PHY_TRAINING_RESULT_2: usize = DDR_PHY_BASE + 0x3f4;
pub const DDR_PHY_TRAINING_RESULT_3: usize = DDR_PHY_BASE + 0x3f8;

/// Settle time between the steps of the training handshake and pulse, in ns.
pub const TRAINING_SETTLE_NS: u64 = 200000;
/// Secondary DRAM-subsystem reset pattern asserted before training.
pub const TRAINING_RESET_PATTERN: usize = 0x0affffc0;
/// PLL output setting that training runs with.
pub const TRAINING_PLLOUT: usize = 0x18;
/// Pull-up ODT of lane B, bits 8-15, during training.
pub const TRAINING_B_DQ8_15_PULL_UP_ODT: usize = 0x04;

/// Device type, latencies, PLL and the drive-strength / ODT table. Only the
/// data-width write depends on the class: it comes first on a 16-bit bus.
pub open spec fn phy_static_writes(bus_16bit: bool) -> Seq<BusOp> {
    let width: Seq<BusOp> = if bus_16bit {
        seq![store(DDR_PHY_DRAM_WIDTH, FLAG_PHY_16BIT)]
    } else {
        seq![]
    };
    width + seq![
        store(DDR_PHY_DRAM_TYPE, FLAG_PHY_LPDDR2 | FLAG_TYPE_RESERVED),
        store(DDR_PHY_DRAM_RLRW, READ_LATENCY),
        store(DDR_PHY_DRAM_WLRW, WRITE_LATENCY),
        store(DDR_PHY_FBDIV, FLAG_FBDIV),
        store(
            DDR_PHY_PLLOUT,
            FLAG_PLL_PULL_DOWN | FLAG_PHY_PLLOUT_RESERVED | FLAG_PLL_CLOCK_OUTPUT_ENABLE,
        ),
        store(DDR_PHY_DIV, FLAG_PREDIV | FLAG_POSTDIV),
        store(DDR_PHY_CMD_DRIVE_STRENGTH, 0x08),
        store(DDR_PHY_CK_DRIVE_STRENGTH, 0x08),
        store(DDR_PHY_CK_PULL_UP, 0x08),
        store(DDR_PHY_CMD_PULL_UP, 0x08),
        store(DDR_PHY_A_DQ0_7_PULL_DOWN_DS, 0x08),
        store(DDR_PHY_A_DQ0_7_PULL_DOWN_ODT, 0x04),
        store(DDR_PHY_A_DQ0_7_PULL_UP_DS, 0x88),
        store(DDR_PHY_A_DQ0_7_PULL_UP_ODT, 0x84),
        store(DDR_PHY_A_DQ8_15_PULL_DOWN_DS, 0x88),
        store(DDR_PHY_A_DQ8_15_PULL_DOWN_ODT, 0x84),
        store(DDR_PHY_A_DQ8_15_PULL_UP_DS, 0x08),
        store(DDR_PHY_A_DQ8_15_PULL_UP_ODT, 0x04),
        store(DDR_PHY_B_DQ0_7_PULL_DOWN_DS, 0x08),
        store(DDR_PHY_B_DQ0_7_PULL_DOWN_ODT, 0x04),
        store(DDR_PHY_B_DQ0_7_PULL_UP_DS, 0x88),
        store(DDR_PHY_B_DQ0_7_PULL_UP_ODT, 0x84),
        store(DDR_PHY_B_DQ8_15_PULL_DOWN_DS, 0x88),
        store(DDR_PHY_B_DQ8_15_PULL_DOWN_ODT, 0x84),
        store(DDR_PHY_B_DQ8_15_PULL_UP_DS, 0x08),
        store(DDR_PHY_B_DQ8_15_PULL_UP_ODT, 0x24),
    ]
}

/// The handshake before calibration: settle, secondary reset, controller
/// software control off, PLL output and one lane's ODT for training, then a
/// pulse of the DFI init-start signal.
pub open spec fn handshake_ops() -> Seq<BusOp> {
    seq![
        BusOp::Delay(TRAINING_SETTLE_NS),
        BusOp::DramReset(TRAINING_RESET_PATTERN),
        BusOp::Delay(TRAINING_SETTLE_NS),
        store(DDR_CONTROL_SWCTL, 0x00),
        BusOp::Delay(TRAINING_SETTLE_NS),
        store(DDR_PHY_PLLOUT, TRAINING_PLLOUT),
        BusOp::Delay(TRAINING_SETTLE_NS),
        store(DDR_PHY_B_DQ8_15_PULL_UP_ODT, TRAINING_B_DQ8_15_PULL_UP_ODT),
        BusOp::Delay(TRAINING_SETTLE_NS),
        store(DDR_CONTROL_DFIMISC, 0x01),
        BusOp::Delay(TRAINING_SETTLE_NS),
        store(DDR_CONTROL_DFIMISC, 0x00),
    ]
}

/// One training attempt: the training-control bit is raised, held, dropped
/// and held again; the results are sampled after it.
pub open spec fn pulse_ops() -> Seq<BusOp> {
    seq![
        store(DDR_PHY_TRAINING_CTRL, 0x01),
        BusOp::Delay(TRAINING_SETTLE_NS),
        store(DDR_PHY_TRAINING_CTRL, 0x00),
        BusOp::Delay(TRAINING_SETTLE_NS),
    ]
}

/// The four port-channel gates that make the memory visible, opened in order.
pub open spec fn enable_port_ops() -> Seq<BusOp> {
    seq![
        store(DDR_CONTROL_PCTRL_0, 0x01),
        store(DDR_CONTROL_PCTRL_1, 0x01),
        store(DDR_CONTROL_PCTRL_2, 0x01),
        store(DDR_CONTROL_PCTRL_3, 0x01),
    ]
}

/// Data lanes sampled per attempt: two on a 16-bit bus, four on a 32-bit one.
pub open spec fn lanes_of(size: DramSize) -> usize {
    if parameter_set(size).bus_16bit {
        2
    } else {
        4
    }
}

/// The training-result registers of the sampled lanes, in lane order.
pub open spec fn result_registers_of(size: DramSize) -> Seq<usize> {
    if lanes_of(size) == 2 {
        seq![DDR_PHY_TRAINING_RESULT_0, DDR_PHY_TRAINING_RESULT_1]
    } else {
        seq![
            DDR_PHY_TRAINING_RESULT_0,
            DDR_PHY_TRAINING_RESULT_1,
            DDR_PHY_TRAINING_RESULT_2,
            DDR_PHY_TRAINING_RESULT_3,
        ]
    }
}

/// The DDR PHY of a memory of the given density class.
pub struct DramPhy {
    size: DramSize,
}

impl DramPhy {
    pub closed spec fn size(&self) -> DramSize {
        self.size
    }

    pub fn new(size: DramSize) -> (r: Self)
        ensures
            r.size() == size,
    {
        Self { size }
    }

    /// Starts calibration: a loop over the lanes this bus width has.
    pub fn train(&self) -> (r: TrainingEngine)
        ensures
            r == TrainingEngine::fresh(lanes_of(self.size())),
            r.lanes() == lanes_of(self.size()),
            r.attempts() == 0,
            r.status() == TrainingStatus::Running,
    {
        TrainingEngine::new(self.lanes())
    }

    pub fn lanes(&self) -> (r: usize)
        ensures
            r == lanes_of(self.size()),
    {
        if self.size.params().bus_16bit {
            2
        } else {
            4
        }
    }

    /// The registers to sample after each training pulse.
    pub fn result_registers(&self) -> (r: Vec<usize>)
        ensures
            r@ == result_registers_of(self.size()),
    {
        let r = if self.lanes() == 2 {
            vec![DDR_PHY_TRAINING_RESULT_0, DDR_PHY_TRAINING_RESULT_1]
        } else {
            vec![
                DDR_PHY_TRAINING_RESULT_0,
                DDR_PHY_TRAINING_RESULT_1,
                DDR_PHY_TRAINING_RESULT_2,
                DDR_PHY_TRAINING_RESULT_3,
            ]
        };
        assert(r@ =~= result_registers_of(self.size));
        r
    }

    pub fn handshake() -> (r: Vec<BusOp>)
        ensures
            r@ == handshake_ops(),
    {
        let r = vec![
            BusOp::Delay(TRAINING_SETTLE_NS),
            BusOp::DramReset(TRAINING_RESET_PATTERN),
            BusOp::Delay(TRAINING_SETTLE_NS),
            make_store(DDR_CONTROL_SWCTL, 0x00),
            BusOp::Delay(TRAINING_SETTLE_NS),
            make_store(DDR_PHY_PLLOUT, TRAINING_PLLOUT),
            BusOp::Delay(TRAINING_SETTLE_NS),
            make_store(DDR_PHY_B_DQ8_15_PULL_UP_ODT, TRAINING_B_DQ8_15_PULL_UP_ODT),
            BusOp::Delay(TRAINING_SETTLE_NS),
            make_store(DDR_CONTROL_DFIMISC, 0x01),
            BusOp::Delay(TRAINING_SETTLE_NS),
            make_store(DDR_CONTROL_DFIMISC, 0x00),
        ];
        assert(r@ =~= handshake_ops());
        r
    }

    pub fn training_pulse() -> (r: Vec<BusOp>)
        ensures
            r@ == pulse_ops(),
    {
        let r = vec![
            make_store(DDR_PHY_TRAINING_CTRL, 0x01),
            BusOp::Delay(TRAINING_SETTLE_NS),
            make_store(DDR_PHY_TRAINING_CTRL, 0x00),
            BusOp::Delay(TRAINING_SETTLE_NS),
        ];
        assert(r@ =~= pulse_ops());
        r
    }

    pub fn enable_ports() -> (r: Vec<BusOp>)
        ensures
            r@ == enable_port_ops(),
    {
        let r = vec![
            make_store(DDR_CONTROL_PCTRL_0, 0x01),
            make_store(DDR_CONTROL_PCTRL_1, 0x01),
            make_store(DDR_CONTROL_PCTRL_2, 0x01),
            make_store(DDR_CONTROL_PCTRL_3, 0x01),
        ];
        assert(r@ =~= enable_port_ops());
        r
    }
}

impl Driver for DramPhy {
    open spec fn plan(&self) -> Seq<BusOp> {
        phy_static_writes(parameter_set(self.size()).bus_16bit)
    }

    fn init(&self) -> (r: Vec<BusOp>) {
        let bus_16bit = self.size.params().bus_16bit;
        let mut r: Vec<BusOp> = Vec::new();
        if bus_16bit {
            r.push(make_store(DDR_PHY_DRAM_WIDTH, FLAG_PHY_16BIT));
        }
        let mut rest = vec![
            make_store(DDR_PHY_DRAM_TYPE, FLAG_PHY_LPDDR2 | FLAG_TYPE_RESERVED),
            make_store(DDR_PHY_DRAM_RLRW, READ_LATENCY),
            make_store(DDR_PHY_DRAM_WLRW, WRITE_LATENCY),
            make_store(DDR_PHY_FBDIV, FLAG_FBDIV),
            make_store(
                DDR_PHY_PLLOUT,
                FLAG_PLL_PULL_DOWN | FLAG_PHY_PLLOUT_RESERVED | FLAG_PLL_CLOCK_OUTPUT_ENABLE,
            ),
            make_store(DDR_PHY_DIV, FLAG_PREDIV | FLAG_POSTDIV),
            make_store(DDR_PHY_CMD_DRIVE_STRENGTH, 0x08),
            make_store(DDR_PHY_CK_DRIVE_STRENGTH, 0x08),
            make_store(DDR_PHY_CK_PULL_UP, 0x08),
            make_store(DDR_PHY_CMD_PULL_UP, 0x08),
            make_store(DDR_PHY_A_DQ0_7_PULL_DOWN_DS, 0x08),
            make_store(DDR_PHY_A_DQ0_7_PULL_DOWN_ODT, 0x04),
            make_store(DDR_PHY_A_DQ0_7_PULL_UP_DS, 0x88),
            make_store(DDR_PHY_A_DQ0_7_PULL_UP_ODT, 0x84),
            make_store(DDR_PHY_A_DQ8_15_PULL_DOWN_DS, 0x88),
            make_store(DDR_PHY_A_DQ8_15_PULL_DOWN_ODT, 0x84),
            make_store(DDR_PHY_A_DQ8_15_PULL_UP_DS, 0x08),
            make_store(DDR_PHY_A_DQ8_15_PULL_UP_ODT, 0x04),
            make_store(DDR_PHY_B_DQ0_7_PULL_DOWN_DS, 0x08),
            make_store(DDR_PHY_B_DQ0_7_PULL_DOWN_ODT, 0x04),
            make_store(DDR_PHY_B_DQ0_7_PULL_UP_DS, 0x88),
            make_store(DDR_PHY_B_DQ0_7_PULL_UP_ODT, 0x84),
            make_store(DDR_PHY_B_DQ8_15_PULL_DOWN_DS, 0x88),
            make_store(DDR_PHY_B_DQ8_15_PULL_DOWN_ODT, 0x84),
            make_store(DDR_PHY_B_DQ8_15_PULL_UP_DS, 0x08),
            make_store(DDR_PHY_B_DQ8_15_PULL_UP_ODT, 0x24),
        ];
        r.append(&mut rest);
        assert(r@ =~= self.plan());
        r
    }
}

} // verus!
