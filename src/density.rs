use vstd::prelude::*;

verus! {

/// The supported DRAM capacities; every other table of the bring-up is keyed by it.
#[derive(Clone, Copy, Debug, Default, PartialEq, Eq, Structural)]
pub enum DramSize {
    #[default]
    Dram32M,
    Dram64M,
    Dram128M,
    Dram256M,
    Dram512M,
}

/// Controller timing constants of one density class, in the units of the
/// register fields that receive them.
#[derive(Clone, Copy, Debug, PartialEq, Eq, Structural)]
pub struct Timing {
    pub rfc_min: usize,
    pub t_rfc_nom_x32: usize,
    pub post_cke_x1024: usize,
    pub idle_after_reset_x32: usize,
    /// Mode-register value sent at initialisation (`EMR|MR`).
    pub mr: usize,
    pub zqinit_x32: usize,
    pub t_ras_min: usize,
    pub t_ras_max: usize,
    pub t_faw: usize,
    pub wr2pre: usize,
    pub t_rc: usize,
    pub wr2rd: usize,
    pub t_rp: usize,
    pub t_rcd: usize,
    pub t_xsr: usize,
    pub zq_short_nop: usize,
    pub zq_long_nop: usize,
    pub zq_reset_nop: usize,
}

/// Which host address bit drives each DRAM bank, column and row bit, as the
/// controller's address-map registers encode it.
#[derive(Clone, Copy, Debug, PartialEq, Eq, Structural)]
pub struct AddressMap {
    pub bank_b0: usize,
    pub bank_b1: usize,
    pub bank_b2: usize,
    pub col_b8: usize,
    pub col_b9: usize,
    pub col_b10: usize,
    pub col_b11: usize,
    pub row_b0: usize,
    pub row_b1: usize,
    pub row_b2: usize,
    pub row_b11: usize,
    pub row_b12: usize,
    pub row_b13: usize,
    pub row_b14: usize,
    pub row_b15: usize,
}

/// Everything about the memory that depends on its density class.
#[derive(Clone, Copy, Debug, PartialEq, Eq, Structural)]
pub struct ParameterSet {
    /// A 16-bit data bus (two byte lanes) rather than a 32-bit one (four lanes).
    pub bus_16bit: bool,
    pub timing: Timing,
    pub addr_map: AddressMap,
}

pub open spec fn timing_of(size: DramSize) -> Timing {
    match size {
        DramSize::Dram32M => Timing {
            rfc_min: 0x1a,
            t_rfc_nom_x32: 0x30,
            post_cke_x1024: 0x28,
            idle_after_reset_x32: 6,
            mr: 0x83,
            zqinit_x32: 7,
            t_ras_min: 8,
            t_ras_max: 0xd,
            t_faw: 0xa,
            wr2pre: 7,
            t_rc: 0xd,
            wr2rd: 7,
            t_rp: 5,
            t_rcd: 4,
            t_xsr: 0x1c,
            zq_short_nop: 0x12,
            zq_long_nop: 0x48,
            zq_reset_nop: 0xa,
        },
        _ => Timing {
            rfc_min: 0x14,
            t_rfc_nom_x32: if size == DramSize::Dram256M || size == DramSize::Dram512M {
                0x13
            } else {
                0x26
            },
            post_cke_x1024: 0x1f,
            idle_after_reset_x32: 4,
            mr: 0x63,
            zqinit_x32: 5,
            t_ras_min: 7,
            t_ras_max: 0xa,
            t_faw: 8,
            wr2pre: 6,
            t_rc: 0xa,
            wr2rd: 6,
            t_rp: 4,
            t_rcd: 3,
            t_xsr: 0x16,
            zq_short_nop: 0xf,
            zq_long_nop: 0x39,
            zq_reset_nop: 0x8,
        },
    }
}

/// Address maps: `(bank, bank, bank)`, `(col8, col9, col10, col11)`, one shift
/// shared by row bits 0-2, 11 and 12, then rows 13-15.
pub open spec fn addr_map_of(size: DramSize) -> AddressMap {
    match size {
        DramSize::Dram32M => addr_map_from(6, 6, 0x1f, 0xf, 0xf, 4, 0xf, 0xf),
        DramSize::Dram64M => addr_map_from(7, 7, 0x1f, 0, 0xf, 5, 0xf, 0xf),
        DramSize::Dram128M => addr_map_from(7, 7, 7, 0, 0xf, 6, 0xf, 0xf),
        DramSize::Dram256M => addr_map_from(7, 7, 7, 0, 0xf, 6, 6, 0xf),
        DramSize::Dram512M => addr_map_from(8, 8, 8, 0, 0, 7, 7, 0xf),
    }
}

/// An address map whose columns 10-11 and rows 14-15 are unused (0xf).
pub open spec fn addr_map_from(
    b0: usize,
    b1: usize,
    b2: usize,
    c8: usize,
    c9: usize,
    row: usize,
    r13: usize,
    r14_15: usize,
) -> AddressMap {
    AddressMap {
        bank_b0: b0,
        bank_b1: b1,
        bank_b2: b2,
        col_b8: c8,
        col_b9: c9,
        col_b10: 0xf,
        col_b11: 0xf,
        row_b0: row,
        row_b1: row,
        row_b2: row,
        row_b11: row,
        row_b12: row,
        row_b13: r13,
        row_b14: r14_15,
        row_b15: r14_15,
    }
}

pub open spec fn parameter_set(size: DramSize) -> ParameterSet {
    ParameterSet {
        bus_16bit: size == DramSize::Dram32M,
        timing: timing_of(size),
        addr_map: addr_map_of(size),
    }
}

impl DramSize {
    /// The parameter set of this density class.
    pub fn params(&self) -> (r: ParameterSet)
        ensures
            r == parameter_set(*self),
    {
        ParameterSet {
            bus_16bit: matches!(self, DramSize::Dram32M),
            timing: self.timing(),
            addr_map: self.addr_map(),
        }
    }

    fn timing(&self) -> (r: Timing)
        ensures
            r == timing_of(*self),
    {
        match self {
            DramSize::Dram32M => Timing {
                rfc_min: 0x1a,
                t_rfc_nom_x32: 0x30,
                post_cke_x1024: 0x28,
                idle_after_reset_x32: 6,
                mr: 0x83,
                zqinit_x32: 7,
                t_ras_min: 8,
                t_ras_max: 0xd,
                t_faw: 0xa,
                wr2pre: 7,
                t_rc: 0xd,
                wr2rd: 7,
                t_rp: 5,
                t_rcd: 4,
                t_xsr: 0x1c,
                zq_short_nop: 0x12,
                zq_long_nop: 0x48,
                zq_reset_nop: 0xa,
            },
            _ => Timing {
                rfc_min: 0x14,
                t_rfc_nom_x32: match self {
                    DramSize::Dram256M | DramSize::Dram512M => 0x13,
                    _ => 0x26,
                },
                post_cke_x1024: 0x1f,
                idle_after_reset_x32: 4,
                mr: 0x63,
                zqinit_x32: 5,
                t_ras_min: 7,
                t_ras_max: 0xa,
                t_faw: 8,
                wr2pre: 6,
                t_rc: 0xa,
                wr2rd: 6,
                t_rp: 4,
                t_rcd: 3,
                t_xsr: 0x16,
                zq_short_nop: 0xf,
                zq_long_nop: 0x39,
                zq_reset_nop: 0x8,
            },
        }
    }

    fn addr_map(&self) -> (r: AddressMap)
        ensures
            r == addr_map_of(*self),
    {
        let (b0, b1, b2, c8, c9, row, r13, r14_15): (
            usize,
            usize,
            usize,
            usize,
            usize,
            usize,
            usize,
            usize,
        ) = match self {
            DramSize::Dram32M => (6, 6, 0x1f, 0xf, 0xf, 4, 0xf, 0xf),
            DramSize::Dram64M => (7, 7, 0x1f, 0, 0xf, 5, 0xf, 0xf),
            DramSize::Dram128M => (7, 7, 7, 0, 0xf, 6, 0xf, 0xf),
            DramSize::Dram256M => (7, 7, 7, 0, 0xf, 6, 6, 0xf),
            DramSize::Dram512M => (8, 8, 8, 0, 0, 7, 7, 0xf),
        };
        AddressMap {
            bank_b0: b0,
            bank_b1: b1,
            bank_b2: b2,
            col_b8: c8,
            col_b9: c9,
            col_b10: 0xf,
            col_b11: 0xf,
            row_b0: row,
            row_b1: row,
            row_b2: row,
            row_b11: row,
            row_b12: row,
            row_b13: r13,
            row_b14: r14_15,
            row_b15: r14_15,
        }
    }

    /// A human-readable capacity, such as "32 MB".
    pub fn label(&self) -> (r: &'static str)
        ensures
            r@ == label_of(*self),
    {
        match self {
            DramSize::Dram32M => "32 MB",
            DramSize::Dram64M => "64 MB",
            DramSize::Dram128M => "128 MB",
            DramSize::Dram256M => "256 MB",
            DramSize::Dram512M => "512 MB",
        }
    }
}

pub open spec fn label_of(size: DramSize) -> Seq<char> {
    match size {
        DramSize::Dram32M => "32 MB"@,
        DramSize::Dram64M => "64 MB"@,
        DramSize::Dram128M => "128 MB"@,
        DramSize::Dram256M => "256 MB"@,
        DramSize::Dram512M => "512 MB"@,
    }
}

} // verus!
