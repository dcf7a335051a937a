use vstd::prelude::*;

use crate::bus::{BusOp, Driver};
use crate::density::DramSize;
use crate::regs::{low_bits, Field};

verus! {

/// The parents of the DRAM top-level clock mux, in the order of the mux's
/// selector values.
#[derive(Clone, Copy, Debug, PartialEq, Eq, Structural)]
pub enum DdrTopClk {
    Clk156m,
    Clk200m,
    Clk104m,
    Clk78m,
}

/// Tag of the DRAM clock-mux selector register of the SoC matrix block.
pub struct DdrClkSel;

/// Position of the selector field in the mux register.
pub const DDR_CLK_SEL_SHIFT: usize = 0;
pub const DDR_CLK_SEL_WIDTH: usize = 2;

impl DdrTopClk {
    pub open spec fn spec_selector(self) -> usize {
        match self {
            DdrTopClk::Clk156m => 0,
            DdrTopClk::Clk200m => 1,
            DdrTopClk::Clk104m => 2,
            DdrTopClk::Clk78m => 3,
        }
    }

    pub open spec fn spec_mhz(self) -> u32 {
        match self {
            DdrTopClk::Clk156m => 156,
            DdrTopClk::Clk200m => 200,
            DdrTopClk::Clk104m => 104,
            DdrTopClk::Clk78m => 78,
        }
    }

    /// The selector value that picks this parent.
    pub fn selector(&self) -> (r: usize)
        ensures
            r == self.spec_selector(),
    {
        match self {
            DdrTopClk::Clk156m => 0,
            DdrTopClk::Clk200m => 1,
            DdrTopClk::Clk104m => 2,
            DdrTopClk::Clk78m => 3,
        }
    }

    /// The frequency of this parent in MHz.
    pub fn mhz(&self) -> (r: u32)
        ensures
            r == self.spec_mhz(),
    {
        match self {
            DdrTopClk::Clk156m => 156,
            DdrTopClk::Clk200m => 200,
            DdrTopClk::Clk104m => 104,
            DdrTopClk::Clk78m => 78,
        }
    }

    /// The mux register value `current` with its selector switched to this parent.
    pub fn apply_to(&self, current: usize) -> (r: usize)
        ensures
            (r >> DDR_CLK_SEL_SHIFT) & low_bits(DDR_CLK_SEL_WIDTH) == self.spec_selector(),
            r & !(low_bits(DDR_CLK_SEL_WIDTH) << DDR_CLK_SEL_SHIFT) == current & !(low_bits(
                DDR_CLK_SEL_WIDTH,
            ) << DDR_CLK_SEL_SHIFT),
    {
        let field: Field<DdrClkSel> = Field::new(DDR_CLK_SEL_SHIFT, DDR_CLK_SEL_WIDTH);
        let sel = self.selector();
        let r = field.set(current, sel);
        assert(sel & low_bits(2) == sel) by (bit_vector)
            requires
                sel < 4,
        ;
        r
    }
}

/// The DRAM clock parent of a density class: the 200 MHz source for 32 MB,
/// the 156 MHz source otherwise.
pub open spec fn clock_parent(size: DramSize) -> DdrTopClk {
    if size == DramSize::Dram32M {
        DdrTopClk::Clk200m
    } else {
        DdrTopClk::Clk156m
    }
}

/// The clock selector of the DRAM subsystem.
pub struct DramClk {
    size: DramSize,
}

impl DramClk {
    pub closed spec fn size(&self) -> DramSize {
        self.size
    }

    pub fn new(size: DramSize) -> (r: Self)
        ensures
            r.size() == size,
    {
        Self { size }
    }

    /// The parent that clocks the controller and the PHY.
    pub fn parent(&self) -> (r: DdrTopClk)
        ensures
            r == clock_parent(self.size()),
            (r.spec_mhz() == 200) == (self.size() == DramSize::Dram32M),
            self.size() != DramSize::Dram32M ==> r.spec_mhz() == 156,
    {
        match self.size {
            DramSize::Dram32M => DdrTopClk::Clk200m,
            _ => DdrTopClk::Clk156m,
        }
    }
}

impl Driver for DramClk {
    open spec fn plan(&self) -> Seq<BusOp> {
        seq![BusOp::SelectClock(clock_parent(self.size()))]
    }

    fn init(&self) -> (r: Vec<BusOp>) {
        let r = vec![BusOp::SelectClock(self.parent())];
        assert(r@ =~= self.plan());
        r
    }
}

} // verus!
