//! Verified decoding of PCI configuration-space headers, together with the
//! bookkeeping of the in-kernel test runner and a small result utility.
//!
//! - [`device`]: PCI device headers, their header type register, interrupt
//!   pin and identity.
//! - [`bar`]: decoding of base address registers.
//! - [`class`]: device class and subclass codes.
//! - [`register`]: the command, status and BIST registers.
//! - [`pci_db`]: lookups in the PCI ID database.
//! - [`error`]: the error for values a device should not hold.
//! - [`fmt`]: hexadecimal text.
//! - [`runner`]: tallying the outcomes of a test run.
//! - [`util`]: unwrapping results that cannot fail.

pub mod bar;
pub mod class;
pub mod device;
pub mod error;
pub mod fmt;
pub mod pci_db;
pub mod register;
pub mod runner;
pub mod util;

pub use bar::BaseAddress;
pub use class::{Class, Classes, RawClasses, Subclass};
pub use device::{
    CardBusDetails, Device, Header, HeaderType, HeaderTypeReg, Id, IrqPin, Kind, KnownId,
    PciBridgeDetails, RawIds, StandardDetails, SubsystemId, Vendor,
};
pub use error::UnexpectedValue;
pub use runner::{run_result, section_test_count, tally_outcomes, TestTally};
pub use util::expect_display;
