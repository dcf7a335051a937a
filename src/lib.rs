//! Boot-time bring-up of an LPDDR2 memory subsystem: the density tables, the
//! ordered register programs of the DDR controller and PHY, the bounded
//! calibration loop and the sequence that ties them together, all expressed as
//! plans of bus operations that a platform layer executes in order.
//!
//! Beside it: a typed register bit-field layer, and the decision logic of the
//! USB bulk endpoints and of the download protocol spoken over them.

pub mod bus;
pub mod clock;
pub mod control;
pub mod density;
pub mod dram;
pub mod phy;
pub mod regs;
pub mod training;
pub mod usb;
pub mod zte;

pub use bus::{BusOp, Driver, RegWrite};
pub use clock::{DdrTopClk, DramClk};
pub use control::DramControl;
pub use density::{AddressMap, DramSize, ParameterSet, Timing};
pub use dram::{BringUp, BringUpPhase, Dram, Step};
pub use phy::DramPhy;
pub use regs::{Bit, Field, Register, RegisterValue};
pub use training::{abs_diff, samples_converged, TrainingEngine, TrainingStatus};
pub use usb::Usb;
pub use zte::{CommandParser, ZteProtocol};
