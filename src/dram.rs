use vstd::prelude::*;

use crate::bus::{BusOp, Driver};
use crate::clock::{clock_parent, DramClk};
use crate::control::{controller_program, DramControl};
use crate::density::{parameter_set, DramSize};
use crate::phy::{
    enable_port_ops, handshake_ops, lanes_of, phy_static_writes, pulse_ops, result_registers_of,
    DramPhy,
};
use crate::training::{TrainingEngine, TrainingStatus};

verus! {

/// Reset patterns of the DRAM subsystem at entry: asserted, then released.
pub const RESET_ASSERT_PATTERN: usize = 0x0affe000;
pub const RESET_RELEASE_PATTERN: usize = 0x0affe400;
/// Hold time of each reset pattern, in ns.
pub const RESET_HOLD_NS: u64 = 200000;

pub open spec fn reset_ops() -> Seq<BusOp> {
    seq![
        BusOp::DramReset(RESET_ASSERT_PATTERN),
        BusOp::Delay(RESET_HOLD_NS),
        BusOp::DramReset(RESET_RELEASE_PATTERN),
        BusOp::Delay(RESET_HOLD_NS),
    ]
}

/// Everything before the calibration loop, in order: reset pulse, clock
/// selection, static PHY configuration, controller configuration and the
/// training handshake.
pub open spec fn setup_plan(size: DramSize) -> Seq<BusOp> {
    reset_ops() + seq![BusOp::SelectClock(clock_parent(size))] + phy_static_writes(
        parameter_set(size).bus_16bit,
    ) + controller_program(size) + handshake_ops()
}

/// The DRAM subsystem of a memory of the given density class.
pub struct Dram {
    size: DramSize,
}

/// What the platform does next for a bring-up in progress.
pub enum Step {
    /// Perform `ops`, then read the registers of `sample` in order and hand
    /// the values to the next call of `advance`.
    Run { ops: Vec<BusOp>, sample: Vec<usize> },
    /// Perform `ops`; the bring-up is then complete, and `outcome` says
    /// whether calibration converged or ran out of attempts.
    Done { ops: Vec<BusOp>, outcome: TrainingStatus },
}

#[derive(Clone, Copy, Debug, PartialEq, Eq, Structural)]
pub enum BringUpPhase {
    Setup,
    Calibrating,
    Finished,
}

/// The bring-up sequence as a state machine driven by sampled training results.
pub struct BringUp {
    size: DramSize,
    phase: BringUpPhase,
    engine: TrainingEngine,
}

impl Dram {
    pub closed spec fn size(&self) -> DramSize {
        self.size
    }

    pub fn new(size: DramSize) -> (r: Self)
        ensures
            r.size() == size,
    {
        Self { size }
    }

    /// The operations before the calibration loop.
    pub fn setup(&self) -> (r: Vec<BusOp>)
        ensures
            r@ == setup_plan(self.size()),
    {
        let mut r = vec![
            BusOp::DramReset(RESET_ASSERT_PATTERN),
            BusOp::Delay(RESET_HOLD_NS),
            BusOp::DramReset(RESET_RELEASE_PATTERN),
            BusOp::Delay(RESET_HOLD_NS),
        ];
        let mut part = DramClk::new(self.size).init();
        r.append(&mut part);
        let phy = DramPhy::new(self.size);
        let mut part = phy.init();
        r.append(&mut part);
        let mut part = DramControl::new(self.size).init();
        r.append(&mut part);
        let mut part = DramPhy::handshake();
        r.append(&mut part);
        assert(r@ =~= setup_plan(self.size));
        r
    }

    /// Starts the bring-up.
    pub fn init(&self) -> (r: BringUp)
        ensures
            r.size() == self.size(),
            r.phase() == BringUpPhase::Setup,
    {
        BringUp {
            size: self.size,
            phase: BringUpPhase::Setup,
            engine: DramPhy::new(self.size).train(),
        }
    }
}

impl BringUp {
    #[verifier::type_invariant]
    closed spec fn consistent(self) -> bool {
        self.phase == BringUpPhase::Calibrating ==> {
            &&& self.engine.lanes() == lanes_of(self.size)
            &&& self.engine.status() == TrainingStatus::Running
        }
    }

    pub closed spec fn size(&self) -> DramSize {
        self.size
    }

    pub closed spec fn phase(&self) -> BringUpPhase {
        self.phase
    }

    pub closed spec fn engine(&self) -> TrainingEngine {
        self.engine
    }

    /// Takes the values read after the previous `Run` step (ignored before the
    /// first step and after the last) and says what to do next. The first
    /// step carries the whole setup and the first training pulse; each later
    /// one records an attempt and either pulses again or, once calibration
    /// has converged or run out of attempts, opens the DRAM ports.
    pub fn advance(&mut self, samples: &[usize]) -> (r: Step)
        requires
            old(self).phase() == BringUpPhase::Calibrating ==> samples@.len() == lanes_of(
                old(self).size(),
            ),
        ensures
            final(self).size() == old(self).size(),
            ({
                let size = old(self).size();
                match old(self).phase() {
                    BringUpPhase::Setup => {
                        &&& final(self).phase() == BringUpPhase::Calibrating
                        &&& final(self).engine() == TrainingEngine::fresh(lanes_of(size))
                        &&& match r {
                            Step::Run { ops, sample } => ops@ == setup_plan(size) + pulse_ops()
                                && sample@ == result_registers_of(size),
                            Step::Done { .. } => false,
                        }
                    },
                    BringUpPhase::Calibrating => {
                        let e = old(self).engine().spec_record(samples@);
                        &&& final(self).engine() == e
                        &&& if e.status() == TrainingStatus::Running {
                            &&& final(self).phase() == BringUpPhase::Calibrating
                            &&& match r {
                                Step::Run { ops, sample } => ops@ == pulse_ops() && sample@
                                    == result_registers_of(size),
                                Step::Done { .. } => false,
                            }
                        } else {
                            &&& final(self).phase() == BringUpPhase::Finished
                            &&& match r {
                                Step::Run { .. } => false,
                                Step::Done { ops, outcome } => ops@ == enable_port_ops()
                                    && outcome == e.status(),
                            }
                        }
                    },
                    BringUpPhase::Finished => {
                        &&& *final(self) == *old(self)
                        &&& match r {
                            Step::Run { .. } => false,
                            Step::Done { ops, outcome } => ops@.len() == 0 && outcome
                                == old(self).engine().status(),
                        }
                    },
                }
            }),
    {
        proof {
            use_type_invariant(&*self);
        }
        let phy = DramPhy::new(self.size);
        match self.phase {
            BringUpPhase::Setup => {
                let mut ops = Dram::new(self.size).setup();
                let mut pulse = DramPhy::training_pulse();
                ops.append(&mut pulse);
                *self = BringUp {
                    size: self.size,
                    phase: BringUpPhase::Calibrating,
                    engine: phy.train(),
                };
                Step::Run { ops, sample: phy.result_registers() }
            },
            BringUpPhase::Calibrating => {
                let mut engine = self.engine;
                let status = engine.record(samples);
                if status == TrainingStatus::Running {
                    *self = BringUp { size: self.size, phase: BringUpPhase::Calibrating, engine };
                    Step::Run { ops: DramPhy::training_pulse(), sample: phy.result_registers() }
                } else {
                    *self = BringUp { size: self.size, phase: BringUpPhase::Finished, engine };
                    Step::Done { ops: DramPhy::enable_ports(), outcome: status }
                }
            },
            BringUpPhase::Finished => {
                Step::Done { ops: Vec::new(), outcome: self.engine.current_status() }
            },
        }
    }
}

} // verus!
