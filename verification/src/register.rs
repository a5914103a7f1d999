use vstd::prelude::*;

verus! {

/// The command register of a PCI device.
///
/// Writing 0 to it disconnects the device from the PCI bus; other values
/// send other commands, depending on the device.
#[derive(Copy, Clone, Debug, PartialEq, Eq)]
pub struct Command {
    pub bits: u16,
}

/// The status register of a PCI device, which reports information about PCI
/// bus events.
#[derive(Copy, Clone, Debug, PartialEq, Eq)]
pub struct Status {
    pub bits: u16,
}

/// The built-in self test (BIST) register of a PCI device.
#[derive(Copy, Clone, Debug, PartialEq, Eq)]
pub struct Bist {
    pub bits: u8,
}

impl Command {
    /// A command register holding the given raw bits.
    pub fn from_bits(bits: u16) -> (r: Self)
        ensures
            r.bits == bits,
    {
        Command { bits }
    }

    /// The raw bits of the register.
    pub fn bits(self) -> (b: u16)
        ensures
            b == self.bits,
    {
        self.bits
    }
}

impl Status {
    /// A status register holding the given raw bits.
    pub fn from_bits(bits: u16) -> (r: Self)
        ensures
            r.bits == bits,
    {
        Status { bits }
    }

    /// The raw bits of the register.
    pub fn bits(self) -> (b: u16)
        ensures
            b == self.bits,
    {
        self.bits
    }
}

impl Bist {
    /// A BIST register holding the given raw bits.
    pub fn from_bits(bits: u8) -> (r: Self)
        ensures
            r.bits == bits,
    {
        Bist { bits }
    }

    /// The raw bits of the register.
    pub fn bits(self) -> (b: u8)
        ensures
            b == self.bits,
    {
        self.bits
    }
}

} // verus!
