use vstd::prelude::*;

use crate::bus::{make_store, store, store_addr, BusOp, Driver};
use crate::density::{parameter_set, AddressMap, DramSize, Timing};

verus! {

pub const DDR_CONTROL_BASE: usize = 0x150000;

pub const DDR_CONTROL_MSTR: usize = DDR_CONTROL_BASE;
pub const FLAG_LPDDR2: usize = 1 << 2;
pub const FLAG_16BIT: usize = 2 << 11;
pub const FLAG_BURST_RDWR: usize = 4 << 16;
pub const FLAG_ACTIVE_RANKS: usize = 1 << 24;

pub const DDR_CONTROL_MRCTRL0: usize = DDR_CONTROL_BASE + 0x10;
pub const FLAG_MR_RANK: usize = 3 << 4;
pub const DDR_CONTROL_MRCTRL1: usize = DDR_CONTROL_BASE + 0x14;

pub const DDR_CONTROL_DERATEEN: usize = DDR_CONTROL_BASE + 0x20;
pub const DDR_CONTROL_DERATEINT: usize = DDR_CONTROL_BASE + 0x24;
pub const FLAG_READ_INTERVAL: usize = 0x800000;

pub const DDR_CONTROL_PWRCTL: usize = DDR_CONTROL_BASE + 0x30;
pub const DDR_CONTROL_PWRTMG: usize = DDR_CONTROL_BASE + 0x34;
pub const FLAG_POWER_DOWN_TO_X32: usize = 2;
pub const FLAG_DEEP_POWER_DOWN_TO_X1024: usize = 0x20 << 8;
pub const FLAG_SELF_REFRESH_TO_X32: usize = 5 << 16;

pub const DDR_CONTROL_HWLPCTL: usize = DDR_CONTROL_BASE + 0x38;
pub const FLAG_HW_LOW_POWER: usize = 1 << 0;
pub const FLAG_HW_EXIT_IDLE: usize = 1 << 1;
pub const FLAG_HW_LOW_POWER_IDLE_X32: usize = 4 << 16;

pub const DDR_CONTROL_RFSHCTL0: usize = DDR_CONTROL_BASE + 0x50;
pub const FLAG_REFRESH_TO_X32: usize = 1 << 16;
pub const FLAG_REFRESH_MARGIN: usize = 2 << 20;
pub const DDR_CONTROL_RFSHCTL1: usize = DDR_CONTROL_BASE + 0x54;
pub const DDR_CONTROL_RFSHCTL2: usize = DDR_CONTROL_BASE + 0x58;
pub const DDR_CONTROL_RFSHCTL3: usize = DDR_CONTROL_BASE + 0x60;

/// The master-register value: LPDDR2, burst read/write, active ranks, and the
/// 16-bit bus width flag for a 16-bit bus.
pub open spec fn master_value(bus_16bit: bool) -> usize {
    if bus_16bit {
        FLAG_LPDDR2 | FLAG_16BIT | FLAG_BURST_RDWR | FLAG_ACTIVE_RANKS
    } else {
        FLAG_LPDDR2 | FLAG_BURST_RDWR | FLAG_ACTIVE_RANKS
    }
}

/// Master mode, mode-register control, de-rating, power and refresh control.
pub open spec fn preamble_writes(bus_16bit: bool) -> Seq<BusOp> {
    seq![
        store(DDR_CONTROL_MSTR, master_value(bus_16bit)),
        store(DDR_CONTROL_MRCTRL0, FLAG_MR_RANK),
        store(DDR_CONTROL_MRCTRL1, 0),
        store(DDR_CONTROL_DERATEEN, 0),
        store(DDR_CONTROL_DERATEINT, FLAG_READ_INTERVAL),
        store(DDR_CONTROL_PWRCTL, 0),
        store(
            DDR_CONTROL_PWRTMG,
            FLAG_POWER_DOWN_TO_X32 | FLAG_SELF_REFRESH_TO_X32 | FLAG_DEEP_POWER_DOWN_TO_X1024,
        ),
        store(
            DDR_CONTROL_HWLPCTL,
            FLAG_HW_LOW_POWER | FLAG_HW_EXIT_IDLE | FLAG_HW_LOW_POWER_IDLE_X32,
        ),
        store(DDR_CONTROL_RFSHCTL0, FLAG_REFRESH_MARGIN | FLAG_REFRESH_TO_X32),
        store(DDR_CONTROL_RFSHCTL1, 0),
        store(DDR_CONTROL_RFSHCTL2, 0),
        store(DDR_CONTROL_RFSHCTL3, 0),
    ]
}

fn preamble(bus_16bit: bool) -> (r: Vec<BusOp>)
    ensures
        r@ == preamble_writes(bus_16bit),
{
    let master = if bus_16bit {
        FLAG_LPDDR2 | FLAG_16BIT | FLAG_BURST_RDWR | FLAG_ACTIVE_RANKS
    } else {
        FLAG_LPDDR2 | FLAG_BURST_RDWR | FLAG_ACTIVE_RANKS
    };
    let r = vec![
        make_store(DDR_CONTROL_MSTR, master),
        make_store(DDR_CONTROL_MRCTRL0, FLAG_MR_RANK),
        make_store(DDR_CONTROL_MRCTRL1, 0),
        make_store(DDR_CONTROL_DERATEEN, 0),
        make_store(DDR_CONTROL_DERATEINT, FLAG_READ_INTERVAL),
        make_store(DDR_CONTROL_PWRCTL, 0),
        make_store(
            DDR_CONTROL_PWRTMG,
            FLAG_POWER_DOWN_TO_X32 | FLAG_SELF_REFRESH_TO_X32 | FLAG_DEEP_POWER_DOWN_TO_X1024,
        ),
        make_store(
            DDR_CONTROL_HWLPCTL,
            FLAG_HW_LOW_POWER | FLAG_HW_EXIT_IDLE | FLAG_HW_LOW_POWER_IDLE_X32,
        ),
        make_store(DDR_CONTROL_RFSHCTL0, FLAG_REFRESH_MARGIN | FLAG_REFRESH_TO_X32),
        make_store(DDR_CONTROL_RFSHCTL1, 0),
        make_store(DDR_CONTROL_RFSHCTL2, 0),
        make_store(DDR_CONTROL_RFSHCTL3, 0),
    ];
    assert(r@ =~= preamble_writes(bus_16bit));
    r
}

pub const DDR_CONTROL_RFSHTMG: usize = DDR_CONTROL_BASE + 0x64;
pub const DDR_CONTROL_INIT0: usize = DDR_CONTROL_BASE + 0xd0;
pub const FLAG_PRE_CKE_X1024: usize = 1;
pub const DDR_CONTROL_INIT1: usize = DDR_CONTROL_BASE + 0xd4;
pub const DDR_CONTROL_INIT2: usize = DDR_CONTROL_BASE + 0xd8;
pub const FLAG_MIN_STABLE_CLOCK_X1: usize = 5;
pub const DDR_CONTROL_INIT3: usize = DDR_CONTROL_BASE + 0xdc;
pub const FLAG_EMR: usize = 6;
pub const DDR_CONTROL_INIT4: usize = DDR_CONTROL_BASE + 0xe0;
/// MR3 drive strength: 4 selects 60 ohm (3 would be 48 ohm).
pub const FLAG_MR3: usize = 4 << 16;
pub const DDR_CONTROL_INIT5: usize = DDR_CONTROL_BASE + 0xe4;
pub const FLAG_MAX_AUTO_INIT_X1024: usize = 2;

pub const DDR_CONTROL_RANKCTL: usize = DDR_CONTROL_BASE + 0xf4;
pub const FLAG_MAX_RANK_RD: usize = 0xf;
pub const FLAG_DIFF_RANK_RD_GAP: usize = 6 << 4;
pub const FLAG_RANK_WR_GAP: usize = 6 << 8;

pub const DDR_CONTROL_DRAMTMG0: usize = DDR_CONTROL_BASE + 0x100;
pub const DDR_CONTROL_DRAMTMG1: usize = DDR_CONTROL_BASE + 0x104;
pub const FLAG_RD2PRE: usize = 2 << 8;
pub const FLAG_T_XP: usize = 2 << 16;
pub const DDR_CONTROL_DRAMTMG2: usize = DDR_CONTROL_BASE + 0x108;
pub const FLAG_RD2WR: usize = 6 << 8;
pub const FLAG_READ_LATENCY: usize = 4 << 16;
pub const FLAG_WRITE_LATENCY: usize = 2 << 24;
pub const DDR_CONTROL_DRAMTMG3: usize = DDR_CONTROL_BASE + 0x10c;
pub const FLAG_T_MOD: usize = 0;
pub const FLAG_T_MRD: usize = 4 << 6;
pub const FLAG_T_MRW: usize = 5 << 20;
pub const DDR_CONTROL_DRAMTMG4: usize = DDR_CONTROL_BASE + 0x110;
pub const FLAG_T_RRD: usize = 2 << 8;
pub const FLAG_T_CCD: usize = 1 << 16;
pub const DDR_CONTROL_DRAMTMG5: usize = DDR_CONTROL_BASE + 0x114;
pub const FLAG_T_CKE: usize = 3;
pub const FLAG_T_CKESR: usize = 3 << 8;
pub const FLAG_T_CKSRE: usize = 1 << 16;
pub const FLAG_T_CKSRX: usize = 1 << 24;
pub const DDR_CONTROL_DRAMTMG6: usize = DDR_CONTROL_BASE + 0x118;
pub const FLAG_T_CKCSX: usize = 3;
pub const FLAG_T_CKDPDX: usize = 2 << 16;
pub const FLAG_T_CKDPDE: usize = 2 << 24;
pub const DDR_CONTROL_DRAMTMG7: usize = DDR_CONTROL_BASE + 0x11c;
pub const FLAG_T_CKPDX: usize = 2;
pub const FLAG_T_CKPDE: usize = 2 << 8;
pub const DDR_CONTROL_DRAMTMG14: usize = DDR_CONTROL_BASE + 0x138;

pub const DDR_CONTROL_ZQCTL0: usize = DDR_CONTROL_BASE + 0x180;
pub const FLAG_DIS_SRX_ZQCL: usize = 1 << 30;
pub const DDR_CONTROL_ZQCTL1: usize = DDR_CONTROL_BASE + 0x184;
pub const FLAG_T_ZQ_SHORT_INTERVAL_X1024: usize = 0x100;

/// Refresh timing, mode-register initialisation, rank control, the DRAM timing
/// registers and the ZQ windows, from the class's timing constants.
pub open spec fn timing_writes(t: Timing) -> Seq<BusOp> {
    seq![
        store(DDR_CONTROL_RFSHTMG, t.rfc_min | (t.t_rfc_nom_x32 << 16)),
        store(DDR_CONTROL_INIT0, FLAG_PRE_CKE_X1024 | (t.post_cke_x1024 << 16)),
        store(DDR_CONTROL_INIT1, 0),
        store(DDR_CONTROL_INIT2, FLAG_MIN_STABLE_CLOCK_X1 | (t.idle_after_reset_x32 << 8)),
        store(DDR_CONTROL_INIT3, FLAG_EMR | (t.mr << 16)),
        store(DDR_CONTROL_INIT4, FLAG_MR3),
        store(DDR_CONTROL_INIT5, (t.zqinit_x32 << 16) | FLAG_MAX_AUTO_INIT_X1024),
        store(DDR_CONTROL_RANKCTL, FLAG_MAX_RANK_RD | FLAG_DIFF_RANK_RD_GAP | FLAG_RANK_WR_GAP),
        store(
            DDR_CONTROL_DRAMTMG0,
            t.t_ras_min | (t.t_ras_max << 8) | (t.t_faw << 16) | (t.wr2pre << 24),
        ),
        store(DDR_CONTROL_DRAMTMG1, t.t_rc | FLAG_RD2PRE | FLAG_T_XP),
        store(
            DDR_CONTROL_DRAMTMG2,
            t.wr2rd | FLAG_RD2WR | FLAG_READ_LATENCY | FLAG_WRITE_LATENCY,
        ),
        store(DDR_CONTROL_DRAMTMG3, FLAG_T_MOD | FLAG_T_MRD | FLAG_T_MRW),
        store(DDR_CONTROL_DRAMTMG4, t.t_rp | FLAG_T_RRD | FLAG_T_CCD | (t.t_rcd << 24)),
        store(DDR_CONTROL_DRAMTMG5, FLAG_T_CKE | FLAG_T_CKESR | FLAG_T_CKSRE | FLAG_T_CKSRX),
        store(DDR_CONTROL_DRAMTMG6, FLAG_T_CKCSX | FLAG_T_CKDPDX | FLAG_T_CKDPDE),
        store(DDR_CONTROL_DRAMTMG7, FLAG_T_CKPDX | FLAG_T_CKPDE),
        store(DDR_CONTROL_DRAMTMG14, t.t_xsr),
        store(DDR_CONTROL_ZQCTL0, t.zq_short_nop | (t.zq_long_nop << 16) | FLAG_DIS_SRX_ZQCL),
        store(DDR_CONTROL_ZQCTL1, FLAG_T_ZQ_SHORT_INTERVAL_X1024 | (t.zq_reset_nop << 20)),
    ]
}

pub const DDR_CONTROL_ZQCTL2: usize = DDR_CONTROL_BASE + 0x188;
pub const DDR_CONTROL_DFITMG0: usize = DDR_CONTROL_BASE + 0x190;
pub const FLAG_DFI_TPHY_WRLAT: usize = 1;
pub const FLAG_DFI_T_RDDATA_EN: usize = 3 << 16;
pub const FLAG_DFI_T_CTRL_DELAY: usize = 4 << 24;
pub const DDR_CONTROL_DFITMG1: usize = DDR_CONTROL_BASE + 0x194;
pub const FLAG_DFI_T_DRAM_CLK_ENABLE: usize = 4;
pub const FLAG_DFI_T_DRAM_CLK_DISABLE: usize = 4 << 8;
pub const FLAG_DFI_T_WRDATA_DELAY: usize = 2 << 16;
pub const DDR_CONTROL_DFILPCFG0: usize = DDR_CONTROL_BASE + 0x198;
pub const FLAG_DFI_LP_EN_PD: usize = 1 << 0;
pub const FLAG_DFI_LP_WAKEUP_PD: usize = 1 << 4;
pub const FLAG_DFI_LP_EN_SR: usize = 1 << 8;
pub const FLAG_DFI_LP_WAKEUP_SR: usize = 1 << 12;
pub const FLAG_DFI_TLP_RESPONSE: usize = 9 << 24;
pub const DDR_CONTROL_DFIUPD0: usize = DDR_CONTROL_BASE + 0x1a0;
pub const FLAG_DFI_T_CTRLUP_MIN: usize = 3;
pub const FLAG_DFI_T_CTRLUP_MAX: usize = 0x40 << 16;
pub const FLAG_DIS_AUTO_CTRLUPD: usize = 1 << 31;
pub const DDR_CONTROL_DFIUPD1: usize = DDR_CONTROL_BASE + 0x1a4;
pub const DDR_CONTROL_DFIUPD2: usize = DDR_CONTROL_BASE + 0x1a8;
pub const FLAG_DFI_PHYUPD_TYPE0: usize = 0x10;
pub const FLAG_DFI_PHYUPD_TYPE1: usize = 0x10 << 16;
pub const FLAG_DFI_PHYUPD_EN: usize = 1 << 31;
pub const DDR_CONTROL_DFIMISC: usize = DDR_CONTROL_BASE + 0x1b0;
pub const DDR_CONTROL_ADDRMAP0: usize = DDR_CONTROL_BASE + 0x200;
pub const FLAG_ADDRMAP_CS_BIT0: usize = 0x1f;

/// ZQ control, DFI timings, low-power handshake and update settings, and the
/// chip-select address map.
pub open spec fn dfi_writes() -> Seq<BusOp> {
    seq![
        store(DDR_CONTROL_ZQCTL2, 0),
        store(
            DDR_CONTROL_DFITMG0,
            FLAG_DFI_TPHY_WRLAT | FLAG_DFI_T_RDDATA_EN | FLAG_DFI_T_CTRL_DELAY,
        ),
        store(
            DDR_CONTROL_DFITMG1,
            FLAG_DFI_T_DRAM_CLK_ENABLE | FLAG_DFI_T_DRAM_CLK_DISABLE | FLAG_DFI_T_WRDATA_DELAY,
        ),
        store(
            DDR_CONTROL_DFILPCFG0,
            FLAG_DFI_LP_EN_PD | FLAG_DFI_LP_WAKEUP_PD | FLAG_DFI_LP_EN_SR | FLAG_DFI_LP_WAKEUP_SR
                | FLAG_DFI_TLP_RESPONSE,
        ),
        store(
            DDR_CONTROL_DFIUPD0,
            FLAG_DFI_T_CTRLUP_MIN | FLAG_DFI_T_CTRLUP_MAX | FLAG_DIS_AUTO_CTRLUPD,
        ),
        store(DDR_CONTROL_DFIUPD1, 0),
        store(
            DDR_CONTROL_DFIUPD2,
            FLAG_DFI_PHYUPD_TYPE0 | FLAG_DFI_PHYUPD_TYPE1 | FLAG_DFI_PHYUPD_EN,
        ),
        store(DDR_CONTROL_DFIMISC, 0),
        store(DDR_CONTROL_ADDRMAP0, FLAG_ADDRMAP_CS_BIT0),
    ]
}

pub const DDR_CONTROL_ADDRMAP1: usize = DDR_CONTROL_BASE + 0x204;
pub const DDR_CONTROL_ADDRMAP2: usize = DDR_CONTROL_BASE + 0x208;
pub const DDR_CONTROL_ADDRMAP3: usize = DDR_CONTROL_BASE + 0x20c;
pub const DDR_CONTROL_ADDRMAP4: usize = DDR_CONTROL_BASE + 0x210;
pub const DDR_CONTROL_ADDRMAP5: usize = DDR_CONTROL_BASE + 0x214;
pub const DDR_CONTROL_ADDRMAP6: usize = DDR_CONTROL_BASE + 0x218;

/// The bank, column and row address-map registers.
pub open spec fn addr_map_writes(m: AddressMap) -> Seq<BusOp> {
    seq![
        store(DDR_CONTROL_ADDRMAP1, m.bank_b0 | (m.bank_b1 << 8) | (m.bank_b2 << 16)),
        store(DDR_CONTROL_ADDRMAP2, 0),
        store(DDR_CONTROL_ADDRMAP3, (m.col_b8 << 16) | (m.col_b9 << 24)),
        store(DDR_CONTROL_ADDRMAP4, m.col_b10 | (m.col_b11 << 8)),
        store(
            DDR_CONTROL_ADDRMAP5,
            m.row_b0 | (m.row_b1 << 8) | (m.row_b2 << 16) | (m.row_b11 << 24),
        ),
        store(
            DDR_CONTROL_ADDRMAP6,
            m.row_b12 | (m.row_b13 << 8) | (m.row_b14 << 16) | (m.row_b15 << 24),
        ),
    ]
}

pub const DDR_CONTROL_ODTCFG: usize = DDR_CONTROL_BASE + 0x240;
pub const DDR_CONTROL_ODTMAP: usize = DDR_CONTROL_BASE + 0x244;
pub const DDR_CONTROL_SCHED: usize = DDR_CONTROL_BASE + 0x250;
pub const FLAG_LOW_PRIO: usize = 1 << 0;
pub const FLAG_PAGECLOSE: usize = 1 << 2;
/// Read and write ODT hold of 4 cycles each.
pub const ODT_HOLD_TIMES: usize = (4 << 8) | (4 << 24);
/// 0x18 entries of the read queue go to low-priority reads.
pub const LPR_NUM_ENTRIES: usize = 0x18 << 8;
pub const DDR_CONTROL_SCHED1: usize = DDR_CONTROL_BASE + 0x254;
pub const DDR_CONTROL_DBG0: usize = DDR_CONTROL_BASE + 0x300;
pub const DDR_CONTROL_DBG1: usize = DDR_CONTROL_BASE + 0x304;
pub const DDR_CONTROL_DBGCMD: usize = DDR_CONTROL_BASE + 0x30c;
pub const DDR_CONTROL_SWCTL: usize = DDR_CONTROL_BASE + 0x320;
pub const DDR_CONTROL_PCCFG: usize = DDR_CONTROL_BASE + 0x400;

/// ODT hold times, the scheduler (low-priority aging, page close, 0x18
/// low-priority queue entries) and the cleared port and debug registers. The
/// port common configuration is cleared twice, as the controller's bring-up
/// sequence has it.
pub open spec fn scheduler_writes() -> Seq<BusOp> {
    seq![
        store(DDR_CONTROL_ODTCFG, ODT_HOLD_TIMES),
        store(DDR_CONTROL_ODTMAP, 0),
        store(DDR_CONTROL_SCHED, FLAG_LOW_PRIO | FLAG_PAGECLOSE | LPR_NUM_ENTRIES),
        store(DDR_CONTROL_SCHED1, 0),
        store(DDR_CONTROL_PCCFG, 0),
        store(DDR_CONTROL_DBG0, 0),
        store(DDR_CONTROL_DBG1, 0),
        store(DDR_CONTROL_DBGCMD, 0),
        store(DDR_CONTROL_PCCFG, 0),
    ]
}

pub const DDR_CONTROL_PCFGR_0: usize = DDR_CONTROL_BASE + 0x404;
pub const DDR_CONTROL_PCFGR_1: usize = DDR_CONTROL_BASE + 0x4b4;
pub const DDR_CONTROL_PCFGR_2: usize = DDR_CONTROL_BASE + 0x564;
pub const DDR_CONTROL_PCFGR_3: usize = DDR_CONTROL_BASE + 0x614;
pub const FLAG_RD_PORT_AGING_ENABLE: usize = 1 << 12;

pub const DDR_CONTROL_PCFGW_0: usize = DDR_CONTROL_BASE + 0x408;
pub const DDR_CONTROL_PCFGW_1: usize = DDR_CONTROL_BASE + 0x4b8;
pub const DDR_CONTROL_PCFGW_2: usize = DDR_CONTROL_BASE + 0x568;
pub const DDR_CONTROL_PCFGW_3: usize = DDR_CONTROL_BASE + 0x618;
pub const FLAG_WR_PORT_AGING_ENABLE: usize = 1 << 12;

pub const DDR_CONTROL_PCTRL_0: usize = DDR_CONTROL_BASE + 0x490;
pub const DDR_CONTROL_PCTRL_1: usize = DDR_CONTROL_BASE + 0x540;
pub const DDR_CONTROL_PCTRL_2: usize = DDR_CONTROL_BASE + 0x5f0;
pub const DDR_CONTROL_PCTRL_3: usize = DDR_CONTROL_BASE + 0x6a0;

pub const DDR_CONTROL_PCFGQOS0_0: usize = DDR_CONTROL_BASE + 0x494;
pub const DDR_CONTROL_PCFGQOS0_1: usize = DDR_CONTROL_BASE + 0x544;
pub const DDR_CONTROL_PCFGQOS0_2: usize = DDR_CONTROL_BASE + 0x5f4;
pub const DDR_CONTROL_PCFGQOS0_3: usize = DDR_CONTROL_BASE + 0x6a4;
pub const DDR_CONTROL_PCFGQOS1_0: usize = DDR_CONTROL_BASE + 0x49c;
pub const DDR_CONTROL_PCFGQOS1_1: usize = DDR_CONTROL_BASE + 0x54c;
pub const DDR_CONTROL_PCFGQOS1_2: usize = DDR_CONTROL_BASE + 0x5fc;
pub const DDR_CONTROL_PCFGQOS1_3: usize = DDR_CONTROL_BASE + 0x6ac;
pub const DDR_CONTROL_PCFGWQOS0_0: usize = DDR_CONTROL_BASE + 0x498;
pub const DDR_CONTROL_PCFGWQOS0_1: usize = DDR_CONTROL_BASE + 0x548;
pub const DDR_CONTROL_PCFGWQOS0_2: usize = DDR_CONTROL_BASE + 0x5f8;
pub const DDR_CONTROL_PCFGWQOS0_3: usize = DDR_CONTROL_BASE + 0x6a8;
pub const DDR_CONTROL_PCFGWQOS1_0: usize = DDR_CONTROL_BASE + 0x4a0;
pub const DDR_CONTROL_PCFGWQOS1_1: usize = DDR_CONTROL_BASE + 0x550;
pub const DDR_CONTROL_PCFGWQOS1_2: usize = DDR_CONTROL_BASE + 0x600;
pub const DDR_CONTROL_PCFGWQOS1_3: usize = DDR_CONTROL_BASE + 0x6b0;

/// Read QoS mapping shared by the four ports: level 1 up to 0xe, region 1 = 2.
pub const RQOS_MAP: usize = 0xe | (2 << 20);

pub const DDR_CONTROL_PERFHPR1: usize = DDR_CONTROL_BASE + 0x25c;
pub const DDR_CONTROL_PERFLPR1: usize = DDR_CONTROL_BASE + 0x264;
pub const DDR_CONTROL_PERFWR1: usize = DDR_CONTROL_BASE + 0x26c;
/// Starvation limit and transaction run length (0xf) of each queue.
pub const HPR_LIMITS: usize = 1 | (0xf << 24);
pub const LPR_LIMITS: usize = 0x7f | (0xf << 24);
pub const WR_LIMITS: usize = 0x7f | (0xf << 24);
pub const DDR_CONTROL_PERFVPR1: usize = DDR_CONTROL_BASE + 0x274;
pub const DDR_CONTROL_PERFVPW1: usize = DDR_CONTROL_BASE + 0x278;

/// The port-priority table: per-port read and write priorities with aging,
/// the QoS region mapping, and the starvation / run-length limits.
pub open spec fn priority_writes() -> Seq<BusOp> {
    seq![
        store(DDR_CONTROL_PCFGR_0, 0x3ff | FLAG_RD_PORT_AGING_ENABLE),
        store(DDR_CONTROL_PCFGR_1, 0x20 | FLAG_RD_PORT_AGING_ENABLE),
        store(DDR_CONTROL_PCFGR_2, 0 | FLAG_RD_PORT_AGING_ENABLE),
        store(DDR_CONTROL_PCFGR_3, 4 | FLAG_RD_PORT_AGING_ENABLE),
        store(DDR_CONTROL_PCFGW_0, 0x3ff | FLAG_WR_PORT_AGING_ENABLE),
        store(DDR_CONTROL_PCFGW_1, 0xff | FLAG_WR_PORT_AGING_ENABLE),
        store(DDR_CONTROL_PCFGW_2, 0x3f | FLAG_WR_PORT_AGING_ENABLE),
        store(DDR_CONTROL_PCFGW_3, 0x5f | FLAG_WR_PORT_AGING_ENABLE),
        store(DDR_CONTROL_PCFGQOS0_0, RQOS_MAP),
        store(DDR_CONTROL_PCFGQOS0_1, RQOS_MAP),
        store(DDR_CONTROL_PCFGQOS0_2, RQOS_MAP),
        store(DDR_CONTROL_PCFGQOS0_3, RQOS_MAP),
        store(DDR_CONTROL_PCFGQOS1_0, 0),
        store(DDR_CONTROL_PCFGQOS1_1, 0),
        store(DDR_CONTROL_PCFGQOS1_2, 0),
        store(DDR_CONTROL_PCFGQOS1_3, 0),
        store(DDR_CONTROL_PCFGWQOS0_0, 0),
        store(DDR_CONTROL_PCFGWQOS0_1, 0),
        store(DDR_CONTROL_PCFGWQOS0_2, 0),
        store(DDR_CONTROL_PCFGWQOS0_3, 0),
        store(DDR_CONTROL_PCFGWQOS1_0, 0),
        store(DDR_CONTROL_PCFGWQOS1_1, 0),
        store(DDR_CONTROL_PCFGWQOS1_2, 0),
        store(DDR_CONTROL_PCFGWQOS1_3, 0),
        store(DDR_CONTROL_PERFHPR1, HPR_LIMITS),
        store(DDR_CONTROL_PERFLPR1, LPR_LIMITS),
        store(DDR_CONTROL_PERFWR1, WR_LIMITS),
        store(DDR_CONTROL_PERFVPR1, 0),
        store(DDR_CONTROL_PERFVPW1, 0),
    ]
}

/// The full controller program of a density class, in hardware order.
pub open spec fn controller_program(size: DramSize) -> Seq<BusOp> {
    let p = parameter_set(size);
    preamble_writes(p.bus_16bit) + timing_writes(p.timing) + dfi_writes() + addr_map_writes(
        p.addr_map,
    ) + scheduler_writes() + priority_writes()
}

/// The register each step stores to; `None` for a step that is no store.
pub open spec fn registers_of(ops: Seq<BusOp>) -> Seq<Option<usize>> {
    ops.map_values(|op: BusOp| store_addr(op))
}

proof fn lemma_registers_of_concat(x: Seq<BusOp>, y: Seq<BusOp>)
    ensures
        registers_of(x + y) == registers_of(x) + registers_of(y),
{
    assert(registers_of(x + y) =~= registers_of(x) + registers_of(y));
}

/// Every density class is programmed through the same registers in the same
/// order, 84 stores in all: only the values stored depend on the class.
pub proof fn lemma_controller_program_order(a: DramSize, b: DramSize)
    ensures
        controller_program(a).len() == 84,
        registers_of(controller_program(a)) == registers_of(controller_program(b)),
{
    let pa = parameter_set(a);
    let pb = parameter_set(b);
    assert(registers_of(preamble_writes(pa.bus_16bit)) =~= registers_of(
        preamble_writes(pb.bus_16bit),
    ));
    assert(registers_of(timing_writes(pa.timing)) =~= registers_of(timing_writes(pb.timing)));
    assert(registers_of(addr_map_writes(pa.addr_map)) =~= registers_of(
        addr_map_writes(pb.addr_map),
    ));
    let x1 = preamble_writes(pa.bus_16bit);
    let x2 = timing_writes(pa.timing);
    let x4 = addr_map_writes(pa.addr_map);
    let y1 = preamble_writes(pb.bus_16bit);
    let y2 = timing_writes(pb.timing);
    let y4 = addr_map_writes(pb.addr_map);
    let d = dfi_writes();
    let s = scheduler_writes();
    let q = priority_writes();
    lemma_registers_of_concat(x1, x2);
    lemma_registers_of_concat(x1 + x2, d);
    lemma_registers_of_concat(x1 + x2 + d, x4);
    lemma_registers_of_concat(x1 + x2 + d + x4, s);
    lemma_registers_of_concat(x1 + x2 + d + x4 + s, q);
    lemma_registers_of_concat(y1, y2);
    lemma_registers_of_concat(y1 + y2, d);
    lemma_registers_of_concat(y1 + y2 + d, y4);
    lemma_registers_of_concat(y1 + y2 + d + y4, s);
    lemma_registers_of_concat(y1 + y2 + d + y4 + s, q);
}

/// The DDR controller of a memory of the given density class.
pub struct DramControl {
    size: DramSize,
}

impl DramControl {
    pub closed spec fn size(&self) -> DramSize {
        self.size
    }

    pub fn new(size: DramSize) -> (r: Self)
        ensures
            r.size() == size,
    {
        Self { size }
    }

    fn init_timing(t: &Timing) -> (r: Vec<BusOp>)
        ensures
            r@ == timing_writes(*t),
    {
        let r = vec![
            make_store(DDR_CONTROL_RFSHTMG, t.rfc_min | (t.t_rfc_nom_x32 << 16)),
            make_store(DDR_CONTROL_INIT0, FLAG_PRE_CKE_X1024 | (t.post_cke_x1024 << 16)),
            make_store(DDR_CONTROL_INIT1, 0),
            make_store(
                DDR_CONTROL_INIT2,
                FLAG_MIN_STABLE_CLOCK_X1 | (t.idle_after_reset_x32 << 8),
            ),
            make_store(DDR_CONTROL_INIT3, FLAG_EMR | (t.mr << 16)),
            make_store(DDR_CONTROL_INIT4, FLAG_MR3),
            make_store(DDR_CONTROL_INIT5, (t.zqinit_x32 << 16) | FLAG_MAX_AUTO_INIT_X1024),
            make_store(
                DDR_CONTROL_RANKCTL,
                FLAG_MAX_RANK_RD | FLAG_DIFF_RANK_RD_GAP | FLAG_RANK_WR_GAP,
            ),
            make_store(
                DDR_CONTROL_DRAMTMG0,
                t.t_ras_min | (t.t_ras_max << 8) | (t.t_faw << 16) | (t.wr2pre << 24),
            ),
            make_store(DDR_CONTROL_DRAMTMG1, t.t_rc | FLAG_RD2PRE | FLAG_T_XP),
            make_store(
                DDR_CONTROL_DRAMTMG2,
                t.wr2rd | FLAG_RD2WR | FLAG_READ_LATENCY | FLAG_WRITE_LATENCY,
            ),
            make_store(DDR_CONTROL_DRAMTMG3, FLAG_T_MOD | FLAG_T_MRD | FLAG_T_MRW),
            make_store(
                DDR_CONTROL_DRAMTMG4,
                t.t_rp | FLAG_T_RRD | FLAG_T_CCD | (t.t_rcd << 24),
            ),
            make_store(
                DDR_CONTROL_DRAMTMG5,
                FLAG_T_CKE | FLAG_T_CKESR | FLAG_T_CKSRE | FLAG_T_CKSRX,
            ),
            make_store(DDR_CONTROL_DRAMTMG6, FLAG_T_CKCSX | FLAG_T_CKDPDX | FLAG_T_CKDPDE),
            make_store(DDR_CONTROL_DRAMTMG7, FLAG_T_CKPDX | FLAG_T_CKPDE),
            make_store(DDR_CONTROL_DRAMTMG14, t.t_xsr),
            make_store(
                DDR_CONTROL_ZQCTL0,
                t.zq_short_nop | (t.zq_long_nop << 16) | FLAG_DIS_SRX_ZQCL,
            ),
            make_store(
                DDR_CONTROL_ZQCTL1,
                FLAG_T_ZQ_SHORT_INTERVAL_X1024 | (t.zq_reset_nop << 20),
            ),
        ];
        assert(r@ =~= timing_writes(*t));
        r
    }

    fn init_dfi() -> (r: Vec<BusOp>)
        ensures
            r@ == dfi_writes(),
    {
        let r = vec![
            make_store(DDR_CONTROL_ZQCTL2, 0),
            make_store(
                DDR_CONTROL_DFITMG0,
                FLAG_DFI_TPHY_WRLAT | FLAG_DFI_T_RDDATA_EN | FLAG_DFI_T_CTRL_DELAY,
            ),
            make_store(
                DDR_CONTROL_DFITMG1,
                FLAG_DFI_T_DRAM_CLK_ENABLE | FLAG_DFI_T_DRAM_CLK_DISABLE
                    | FLAG_DFI_T_WRDATA_DELAY,
            ),
            make_store(
                DDR_CONTROL_DFILPCFG0,
                FLAG_DFI_LP_EN_PD | FLAG_DFI_LP_WAKEUP_PD | FLAG_DFI_LP_EN_SR
                    | FLAG_DFI_LP_WAKEUP_SR | FLAG_DFI_TLP_RESPONSE,
            ),
            make_store(
                DDR_CONTROL_DFIUPD0,
                FLAG_DFI_T_CTRLUP_MIN | FLAG_DFI_T_CTRLUP_MAX | FLAG_DIS_AUTO_CTRLUPD,
            ),
            make_store(DDR_CONTROL_DFIUPD1, 0),
            make_store(
                DDR_CONTROL_DFIUPD2,
                FLAG_DFI_PHYUPD_TYPE0 | FLAG_DFI_PHYUPD_TYPE1 | FLAG_DFI_PHYUPD_EN,
            ),
            make_store(DDR_CONTROL_DFIMISC, 0),
            make_store(DDR_CONTROL_ADDRMAP0, FLAG_ADDRMAP_CS_BIT0),
        ];
        assert(r@ =~= dfi_writes());
        r
    }

    fn configure_address_mapping(m: &AddressMap) -> (r: Vec<BusOp>)
        ensures
            r@ == addr_map_writes(*m),
    {
        let r = vec![
            make_store(DDR_CONTROL_ADDRMAP1, m.bank_b0 | (m.bank_b1 << 8) | (m.bank_b2 << 16)),
            make_store(DDR_CONTROL_ADDRMAP2, 0),
            make_store(DDR_CONTROL_ADDRMAP3, (m.col_b8 << 16) | (m.col_b9 << 24)),
            make_store(DDR_CONTROL_ADDRMAP4, m.col_b10 | (m.col_b11 << 8)),
            make_store(
                DDR_CONTROL_ADDRMAP5,
                m.row_b0 | (m.row_b1 << 8) | (m.row_b2 << 16) | (m.row_b11 << 24),
            ),
            make_store(
                DDR_CONTROL_ADDRMAP6,
                m.row_b12 | (m.row_b13 << 8) | (m.row_b14 << 16) | (m.row_b15 << 24),
            ),
        ];
        assert(r@ =~= addr_map_writes(*m));
        r
    }

    fn init_scheduler() -> (r: Vec<BusOp>)
        ensures
            r@ == scheduler_writes(),
    {
        let r = vec![
            make_store(DDR_CONTROL_ODTCFG, ODT_HOLD_TIMES),
            make_store(DDR_CONTROL_ODTMAP, 0),
            make_store(DDR_CONTROL_SCHED, FLAG_LOW_PRIO | FLAG_PAGECLOSE | LPR_NUM_ENTRIES),
            make_store(DDR_CONTROL_SCHED1, 0),
            make_store(DDR_CONTROL_PCCFG, 0),
            make_store(DDR_CONTROL_DBG0, 0),
            make_store(DDR_CONTROL_DBG1, 0),
            make_store(DDR_CONTROL_DBGCMD, 0),
            make_store(DDR_CONTROL_PCCFG, 0),
        ];
        assert(r@ =~= scheduler_writes());
        r
    }

    fn init_priority() -> (r: Vec<BusOp>)
        ensures
            r@ == priority_writes(),
    {
        let r = vec![
            make_store(DDR_CONTROL_PCFGR_0, 0x3ff | FLAG_RD_PORT_AGING_ENABLE),
            make_store(DDR_CONTROL_PCFGR_1, 0x20 | FLAG_RD_PORT_AGING_ENABLE),
            make_store(DDR_CONTROL_PCFGR_2, 0 | FLAG_RD_PORT_AGING_ENABLE),
            make_store(DDR_CONTROL_PCFGR_3, 4 | FLAG_RD_PORT_AGING_ENABLE),
            make_store(DDR_CONTROL_PCFGW_0, 0x3ff | FLAG_WR_PORT_AGING_ENABLE),
            make_store(DDR_CONTROL_PCFGW_1, 0xff | FLAG_WR_PORT_AGING_ENABLE),
            make_store(DDR_CONTROL_PCFGW_2, 0x3f | FLAG_WR_PORT_AGING_ENABLE),
            make_store(DDR_CONTROL_PCFGW_3, 0x5f | FLAG_WR_PORT_AGING_ENABLE),
            make_store(DDR_CONTROL_PCFGQOS0_0, RQOS_MAP),
            make_store(DDR_CONTROL_PCFGQOS0_1, RQOS_MAP),
            make_store(DDR_CONTROL_PCFGQOS0_2, RQOS_MAP),
            make_store(DDR_CONTROL_PCFGQOS0_3, RQOS_MAP),
            make_store(DDR_CONTROL_PCFGQOS1_0, 0),
            make_store(DDR_CONTROL_PCFGQOS1_1, 0),
            make_store(DDR_CONTROL_PCFGQOS1_2, 0),
            make_store(DDR_CONTROL_PCFGQOS1_3, 0),
            make_store(DDR_CONTROL_PCFGWQOS0_0, 0),
            make_store(DDR_CONTROL_PCFGWQOS0_1, 0),
            make_store(DDR_CONTROL_PCFGWQOS0_2, 0),
            make_store(DDR_CONTROL_PCFGWQOS0_3, 0),
            make_store(DDR_CONTROL_PCFGWQOS1_0, 0),
            make_store(DDR_CONTROL_PCFGWQOS1_1, 0),
            make_store(DDR_CONTROL_PCFGWQOS1_2, 0),
            make_store(DDR_CONTROL_PCFGWQOS1_3, 0),
            make_store(DDR_CONTROL_PERFHPR1, HPR_LIMITS),
            make_store(DDR_CONTROL_PERFLPR1, LPR_LIMITS),
            make_store(DDR_CONTROL_PERFWR1, WR_LIMITS),
            make_store(DDR_CONTROL_PERFVPR1, 0),
            make_store(DDR_CONTROL_PERFVPW1, 0),
        ];
        assert(r@ =~= priority_writes());
        r
    }
}

impl Driver for DramControl {
    open spec fn plan(&self) -> Seq<BusOp> {
        controller_program(self.size())
    }

    fn init(&self) -> (r: Vec<BusOp>) {
        let p = self.size.params();
        let mut r = preamble(p.bus_16bit);
        let mut part = Self::init_timing(&p.timing);
        r.append(&mut part);
        let mut part = Self::init_dfi();
        r.append(&mut part);
        let mut part = Self::configure_address_mapping(&p.addr_map);
        r.append(&mut part);
        let mut part = Self::init_scheduler();
        r.append(&mut part);
        let mut part = Self::init_priority();
        r.append(&mut part);
        assert(r@ =~= controller_program(self.size));
        r
    }
}

} // verus!
