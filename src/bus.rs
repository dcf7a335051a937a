use vstd::prelude::*;

use crate::clock::DdrTopClk;

verus! {

/// One store of a machine word to a memory-mapped register.
#[derive(Clone, Copy, Debug, PartialEq, Eq, Structural)]
pub struct RegWrite {
    pub addr: usize,
    pub value: usize,
}

/// One step of a bring-up plan. The platform layer performs the steps in
/// order, each exactly once, with ordered and non-elided register accesses.
#[derive(Clone, Copy, Debug, PartialEq, Eq, Structural)]
pub enum BusOp {
    /// Store a word to a controller or PHY register.
    Write(RegWrite),
    /// Store a pattern to the DRAM-subsystem reset register of the SoC matrix block.
    DramReset(usize),
    /// Switch the DRAM top-level clock mux to a parent.
    SelectClock(DdrTopClk),
    /// Busy-wait for the given number of nanoseconds.
    Delay(u64),
}

pub open spec fn store(addr: usize, value: usize) -> BusOp {
    BusOp::Write(RegWrite { addr, value })
}

/// The register a step stores to, if it is a register store.
pub open spec fn store_addr(op: BusOp) -> Option<usize> {
    match op {
        BusOp::Write(w) => Some(w.addr),
        _ => None,
    }
}

/// The register store `store(addr, value)`.
pub fn make_store(addr: usize, value: usize) -> (r: BusOp)
    ensures
        r == store(addr, value),
{
    BusOp::Write(RegWrite { addr, value })
}

/// A component that is brought up by a fixed plan of bus operations.
pub trait Driver {
    spec fn plan(&self) -> Seq<BusOp>;

    /// The operations that configure the component, in the order they must run.
    fn init(&self) -> (r: Vec<BusOp>)
        ensures
            r@ == self.plan(),
    ;
}

} // verus!
