use vstd::prelude::*;

use crate::bar::{spec_decode_bars, BaseAddress};
use crate::class::{Class, Classes, RawClasses, Subclass};
use crate::error::{spec_unexpected, spec_unexpected_named, unexpected, UnexpectedValue};
use crate::fmt::{lemma_hex_pair_reads_back, lower_hex, push_char, push_lower_hex, reads_as_hex_pair};
use crate::pci_db::{lookup_device_name, lookup_vendor_name, name_view, pci_device_name, pci_vendor_name};
use crate::register::{Bist, Command, Status};

verus! {

/// Indicates the type of a PCI device and the layout of the rest of its
/// configuration-space header.
///
/// It is encoded in the two least significant bits of the header type
/// register: `0x00` for a standard device, `0x01` for a PCI-to-PCI bridge,
/// and `0x02` for a PCI-to-CardBus bridge.
#[derive(Copy, Clone, Debug, Eq, PartialEq)]
pub enum HeaderType {
    /// This is a standard PCI device.
    Standard,
    /// This is a PCI-to-PCI bridge.
    PciBridge,
    /// This is a PCI-to-CardBus bridge
    CardBusBridge,
}

impl HeaderType {
    /// The number of bits a header type occupies in the header type register.
    pub const BITS: u32 = 2;

    /// The register encoding of a header type.
    pub open spec fn spec_into_bits(self) -> u8 {
        match self {
            HeaderType::Standard => 0x00,
            HeaderType::PciBridge => 0x01,
            HeaderType::CardBusBridge => 0x02,
        }
    }

    /// The header type that `bits` encodes, or the bits themselves as an
    /// unexpected value.
    pub open spec fn spec_from_bits(bits: u8) -> Result<HeaderType, UnexpectedValue<u8>> {
        if bits == 0x00 {
            Ok(HeaderType::Standard)
        } else if bits == 0x01 {
            Ok(HeaderType::PciBridge)
        } else if bits == 0x02 {
            Ok(HeaderType::CardBusBridge)
        } else {
            Err(spec_unexpected(bits))
        }
    }

    /// Decodes a header type from its register encoding.
    pub fn try_from_bits(bits: u8) -> (r: Result<HeaderType, UnexpectedValue<u8>>)
        ensures
            r == Self::spec_from_bits(bits),
    {
        if bits == 0x00 {
            Ok(HeaderType::Standard)
        } else if bits == 0x01 {
            Ok(HeaderType::PciBridge)
        } else if bits == 0x02 {
            Ok(HeaderType::CardBusBridge)
        } else {
            Err(unexpected(bits))
        }
    }

    /// Encodes a header type as it appears in the register.
    pub fn into_bits(self) -> (bits: u8)
        ensures
            bits == self.spec_into_bits(),
    {
        match self {
            HeaderType::Standard => 0x00,
            HeaderType::PciBridge => 0x01,
            HeaderType::CardBusBridge => 0x02,
        }
    }
}

/// Decoding a header type's encoding gives the header type back.
pub proof fn lemma_header_type_bits_roundtrip(t: HeaderType)
    ensures
        HeaderType::spec_from_bits(t.spec_into_bits()) == Ok::<HeaderType, UnexpectedValue<u8>>(t),
        t.spec_into_bits() < 4,
{
}

/// Every encoding that decodes to a header type is that header type's
/// encoding; everything else is reported back unchanged.
pub proof fn lemma_header_type_bits_decode(bits: u8)
    ensures
        HeaderType::spec_from_bits(bits) is Ok <==> bits <= 2,
        HeaderType::spec_from_bits(bits) matches Ok(t) ==> t.spec_into_bits() == bits,
        HeaderType::spec_from_bits(bits) matches Err(e) ==> e == spec_unexpected(bits),
{
}

/// The header type register of a PCI device.
///
/// Bits 0-1 hold the [`HeaderType`], bits 2-6 are reserved, and bit 7 is set
/// when the device has multiple functions.
#[derive(Copy, Clone, Debug, PartialEq, Eq)]
pub struct HeaderTypeReg {
    pub bits: u8,
}

/// The bits of the header type register that hold the header type.
pub open spec fn type_field(bits: u8) -> u8 {
    bits & 0b11
}

/// Whether the multifunction bit of a header type register is set.
pub open spec fn multifunction_field(bits: u8) -> bool {
    (bits >> 7u8) & 1 == 1
}

impl HeaderTypeReg {
    /// A register with every bit clear.
    pub fn new() -> (r: Self)
        ensures
            r.bits == 0,
    {
        HeaderTypeReg { bits: 0 }
    }

    /// A register holding the given raw bits.
    pub fn from_bits(bits: u8) -> (r: Self)
        ensures
            r.bits == bits,
    {
        HeaderTypeReg { bits }
    }

    /// The raw bits of the register.
    pub fn bits(self) -> (b: u8)
        ensures
            b == self.bits,
    {
        self.bits
    }

    /// The header type the register holds, if its type field is valid.
    pub open spec fn spec_header_type(self) -> Result<HeaderType, UnexpectedValue<u8>> {
        HeaderType::spec_from_bits(type_field(self.bits))
    }

    /// Unpacks the header type field.
    pub fn header_type(self) -> (r: Result<HeaderType, UnexpectedValue<u8>>)
        ensures
            r == self.spec_header_type(),
    {
        HeaderType::try_from_bits(self.bits & 0b11)
    }

    /// Unpacks the multifunction bit.
    pub fn is_multifunction(self) -> (m: bool)
        ensures
            m == multifunction_field(self.bits),
    {
        (self.bits >> 7u8) & 1 == 1
    }

    /// The register with its header type field replaced.
    pub open spec fn spec_with_header_type(self, t: HeaderType) -> Self {
        HeaderTypeReg { bits: (self.bits & 0b1111_1100) | t.spec_into_bits() }
    }

    /// Packs `t` into the header type field, leaving the other bits alone.
    pub fn with_header_type(self, t: HeaderType) -> (r: Self)
        ensures
            r == self.spec_with_header_type(t),
    {
        HeaderTypeReg { bits: (self.bits & 0b1111_1100) | t.into_bits() }
    }

    /// The register with its multifunction bit replaced.
    pub open spec fn spec_with_multifunction(self, m: bool) -> Self {
        HeaderTypeReg { bits: (self.bits & 0b0111_1111) | (if m { 0x80u8 } else { 0u8 }) }
    }

    /// Packs `m` into the multifunction bit, leaving the other bits alone.
    pub fn with_multifunction(self, m: bool) -> (r: Self)
        ensures
            r == self.spec_with_multifunction(m),
    {
        let flag: u8 = if m { 0x80 } else { 0 };
        HeaderTypeReg { bits: (self.bits & 0b0111_1111) | flag }
    }
}

/// Reading the header type field gives back what was last packed into it,
/// and packing it leaves the multifunction bit unchanged.
pub proof fn lemma_reg_header_type_roundtrip(r: HeaderTypeReg, t: HeaderType)
    ensures
        r.spec_with_header_type(t).spec_header_type() == Ok::<HeaderType, UnexpectedValue<u8>>(t),
        multifunction_field(r.spec_with_header_type(t).bits) == multifunction_field(r.bits),
{
    let b = r.bits;
    let v = t.spec_into_bits();
    assert(v < 4);
    assert(((b & 0b1111_1100) | v) & 0b11 == v) by (bit_vector)
        requires v < 4u8;
    assert((((b & 0b1111_1100) | v) >> 7u8) & 1 == (b >> 7u8) & 1) by (bit_vector)
        requires v < 4u8;
}

/// Reading the multifunction bit gives back what was last packed into it,
/// and packing it leaves the header type field unchanged.
pub proof fn lemma_reg_multifunction_roundtrip(r: HeaderTypeReg, m: bool)
    ensures
        multifunction_field(r.spec_with_multifunction(m).bits) == m,
        r.spec_with_multifunction(m).spec_header_type() == r.spec_header_type(),
{
    let b = r.bits;
    assert((((b & 0b0111_1111) | 0x80u8) >> 7u8) & 1 == 1) by (bit_vector);
    assert((((b & 0b0111_1111) | 0u8) >> 7u8) & 1 == 0) by (bit_vector);
    assert(((b & 0b0111_1111) | 0x80u8) & 0b11 == b & 0b11) by (bit_vector);
    assert(((b & 0b0111_1111) | 0u8) & 0b11 == b & 0b11) by (bit_vector);
}


/// A PCI device's vendor ID and device ID, as read from its header.
#[derive(Debug, Copy, Clone, Eq, PartialEq)]
pub struct RawIds {
    /// Identifies the manufacturer of the device.
    ///
    /// PCI vendor IDs are allocated by PCI-SIG to ensure uniqueness. Vendor
    /// ID `0xFFFF` is reserved to indicate that a device is not present.
    pub vendor_id: u16,
    /// Identifies the specific device.
    ///
    /// Device IDs are allocated by the device's vendor.
    pub device_id: u16,
}

/// A device that the PCI ID database lists.
#[derive(Copy, Clone, Debug, Eq, PartialEq)]
pub struct KnownId {
    vendor_id: u16,
    device_id: u16,
}

/// A vendor that the PCI ID database lists.
#[derive(Copy, Clone, Debug, Eq, PartialEq)]
pub struct Vendor {
    id: u16,
}

/// A PCI device's identity: a device the PCI ID database lists, or the raw
/// IDs of one it does not.
#[derive(Copy, Clone, Debug, Eq, PartialEq)]
pub enum Id {
    Known(KnownId),
    Unknown(RawIds),
}

impl Vendor {
    #[verifier::type_invariant]
    spec fn listed(self) -> bool {
        pci_vendor_name(self.id) is Some
    }

    /// The vendor ID.
    pub closed spec fn spec_id(self) -> u16 {
        self.id
    }

    /// The vendor ID.
    pub fn id(&self) -> (r: u16)
        ensures
            r == self.spec_id(),
    {
        self.id
    }

    /// The vendor's name in the PCI ID database.
    pub fn name(&self) -> (r: &'static str)
        ensures
            pci_vendor_name(self.spec_id()) == Some(r@),
    {
        proof {
            use_type_invariant(self);
        }
        lookup_vendor_name(self.id).unwrap()
    }
}

impl KnownId {
    #[verifier::type_invariant]
    spec fn listed(self) -> bool {
        &&& pci_device_name(self.vendor_id, self.device_id) is Some
        &&& pci_vendor_name(self.vendor_id) is Some
    }

    /// The vendor ID.
    pub closed spec fn spec_vendor_id(self) -> u16 {
        self.vendor_id
    }

    /// The device ID.
    pub closed spec fn spec_device_id(self) -> u16 {
        self.device_id
    }

    /// The device ID.
    pub fn id(&self) -> (r: u16)
        ensures
            r == self.spec_device_id(),
    {
        self.device_id
    }

    /// The vendor ID and the device ID.
    pub fn as_vid_pid(&self) -> (r: (u16, u16))
        ensures
            r == (self.spec_vendor_id(), self.spec_device_id()),
    {
        (self.vendor_id, self.device_id)
    }

    /// The device's vendor.
    pub fn vendor(&self) -> (v: Vendor)
        ensures
            v.spec_id() == self.spec_vendor_id(),
    {
        proof {
            use_type_invariant(self);
        }
        Vendor { id: self.vendor_id }
    }

    /// The device's name in the PCI ID database.
    pub fn name(&self) -> (r: &'static str)
        ensures
            pci_device_name(self.spec_vendor_id(), self.spec_device_id()) == Some(r@),
    {
        proof {
            use_type_invariant(self);
        }
        lookup_device_name(self.vendor_id, self.device_id).unwrap()
    }

    /// The name of the device's vendor in the PCI ID database.
    pub fn vendor_name(&self) -> (r: &'static str)
        ensures
            pci_vendor_name(self.spec_vendor_id()) == Some(r@),
    {
        proof {
            use_type_invariant(self);
        }
        lookup_vendor_name(self.vendor_id).unwrap()
    }
}

/// The text of `0x` followed by the lower-case hexadecimal `vendor_id`, a
/// colon, and the lower-case hexadecimal `device_id`.
pub open spec fn unknown_id_text(vendor_id: u16, device_id: u16) -> Seq<char> {
    seq!['0', 'x'] + lower_hex(vendor_id as nat) + seq![':'] + lower_hex(device_id as nat)
}

/// The text of an unknown identity is `0x` followed by the full base-16
/// numerals of the vendor ID and the device ID, joined by a colon: it reads
/// back to both IDs.
pub proof fn lemma_unknown_id_text_reads_back(vendor_id: u16, device_id: u16)
    ensures
        unknown_id_text(vendor_id, device_id).len() >= 2,
        unknown_id_text(vendor_id, device_id).subrange(0, 2) == seq!['0', 'x'],
        reads_as_hex_pair(unknown_id_text(vendor_id, device_id).skip(2), vendor_id as nat, device_id as nat),
{
    let t = unknown_id_text(vendor_id, device_id);
    let rest = lower_hex(vendor_id as nat) + seq![':'] + lower_hex(device_id as nat);
    assert(t.subrange(0, 2) =~= seq!['0', 'x']);
    assert(t.skip(2) =~= rest);
    lemma_hex_pair_reads_back(vendor_id as nat, device_id as nat);
}

impl Id {
    /// The vendor ID.
    pub open spec fn spec_vendor_id(self) -> u16 {
        match self {
            Id::Known(k) => k.spec_vendor_id(),
            Id::Unknown(u) => u.vendor_id,
        }
    }

    /// The device ID.
    pub open spec fn spec_device_id(self) -> u16 {
        match self {
            Id::Known(k) => k.spec_device_id(),
            Id::Unknown(u) => u.device_id,
        }
    }

    /// The device's name in the PCI ID database, if it is known.
    #[must_use]
    pub fn name(&self) -> (r: Option<&'static str>)
        ensures
            r is Some <==> self is Known,
            self is Known ==> name_view(r) == pci_device_name(self.spec_vendor_id(), self.spec_device_id()),
    {
        match self {
            Id::Known(known) => Some(known.name()),
            _ => None,
        }
    }

    /// The device's vendor, if the device is known.
    #[must_use]
    pub fn vendor(&self) -> (r: Option<Vendor>)
        ensures
            r is Some <==> self is Known,
            r matches Some(v) ==> v.spec_id() == self.spec_vendor_id(),
    {
        match self {
            Id::Known(known) => Some(known.vendor()),
            _ => None,
        }
    }

    /// The device ID.
    #[must_use]
    pub fn device_id(&self) -> (r: u16)
        ensures
            r == self.spec_device_id(),
    {
        match self {
            Id::Known(known) => known.id(),
            Id::Unknown(unknown) => unknown.device_id,
        }
    }

    /// The vendor ID.
    #[must_use]
    pub fn vendor_id(&self) -> (r: u16)
        ensures
            r == self.spec_vendor_id(),
    {
        match self {
            Id::Known(known) => known.vendor().id(),
            Id::Unknown(unknown) => unknown.vendor_id,
        }
    }

    /// The text of the identity: the vendor's and the device's names,
    /// separated by a space, for a known device; `0x`, the hexadecimal
    /// vendor ID, a colon and the hexadecimal device ID otherwise.
    pub fn to_string(&self) -> (s: String)
        ensures
            self is Known ==> s@ == pci_vendor_name(self.spec_vendor_id())->0 + seq![' ']
                + pci_device_name(self.spec_vendor_id(), self.spec_device_id())->0,
            self matches Id::Unknown(u) ==> s@ == unknown_id_text(u.vendor_id, u.device_id),
            self matches Id::Unknown(u) ==> {
                &&& s@.len() >= 2
                &&& s@.subrange(0, 2) == seq!['0', 'x']
                &&& reads_as_hex_pair(s@.skip(2), u.vendor_id as nat, u.device_id as nat)
            },
    {
        match self {
            Id::Known(known) => {
                let mut s = String::new();
                s.append(known.vendor_name());
                push_char(&mut s, ' ');
                s.append(known.name());
                s
            },
            Id::Unknown(u) => {
                let mut s = String::new();
                push_char(&mut s, '0');
                push_char(&mut s, 'x');
                push_lower_hex(&mut s, u.vendor_id);
                push_char(&mut s, ':');
                push_lower_hex(&mut s, u.device_id);
                proof {
                    assert(s@ =~= unknown_id_text(u.vendor_id, u.device_id));
                    lemma_unknown_id_text_reads_back(u.vendor_id, u.device_id);
                }
                s
            },
        }
    }
}

impl RawIds {
    /// Whether the PCI ID database lists a device with these IDs.
    pub open spec fn listed(self) -> bool {
        pci_device_name(self.vendor_id, self.device_id) is Some
    }

    /// The identity these IDs resolve to: the listed device with these IDs,
    /// or the raw IDs themselves.
    pub closed spec fn spec_resolve(self) -> Id {
        if self.listed() {
            Id::Known(KnownId { vendor_id: self.vendor_id, device_id: self.device_id })
        } else {
            Id::Unknown(self)
        }
    }

    /// Looks the IDs up in the PCI ID database.
    ///
    /// The result is a known identity exactly when the database lists the
    /// device, and it carries the same vendor ID and device ID either way.
    pub fn resolve(self) -> (id: Id)
        ensures
            id == self.spec_resolve(),
            id is Known <==> self.listed(),
            id.spec_vendor_id() == self.vendor_id,
            id.spec_device_id() == self.device_id,
            id is Unknown ==> id == Id::Unknown(self),
    {
        match lookup_device_name(self.vendor_id, self.device_id) {
            Some(_) => Id::Known(KnownId { vendor_id: self.vendor_id, device_id: self.device_id }),
            None => Id::Unknown(self),
        }
    }

    /// The IDs in lower-case hexadecimal: the device ID, a colon and the
    /// vendor ID, led by `0x` when `alternate` is set.
    pub fn to_lower_hex(&self, alternate: bool) -> (s: String)
        ensures
            s@ == (if alternate { seq!['0', 'x'] } else { Seq::empty() }) + lower_hex(self.device_id as nat)
                + seq![':'] + lower_hex(self.vendor_id as nat),
            reads_as_hex_pair(
                s@.skip(if alternate { 2int } else { 0int }),
                self.device_id as nat,
                self.vendor_id as nat,
            ),
            alternate ==> s@.subrange(0, 2) == seq!['0', 'x'],
    {
        let mut s = String::new();
        if alternate {
            push_char(&mut s, '0');
            push_char(&mut s, 'x');
        }
        push_lower_hex(&mut s, self.device_id);
        push_char(&mut s, ':');
        push_lower_hex(&mut s, self.vendor_id);
        proof {
            assert(s@ =~= (if alternate { seq!['0', 'x'] } else { Seq::empty() }) + lower_hex(self.device_id as nat)
                + seq![':'] + lower_hex(self.vendor_id as nat));
            assert(s@.skip(if alternate { 2int } else { 0int }) =~= lower_hex(self.device_id as nat) + seq![':']
                + lower_hex(self.vendor_id as nat));
            lemma_hex_pair_reads_back(self.device_id as nat, self.vendor_id as nat);
        }
        s
    }
}


/// Two listed devices with the same vendor ID and device ID are the same
/// value.
pub proof fn lemma_known_id_eq(a: KnownId, b: KnownId)
    requires
        a.spec_vendor_id() == b.spec_vendor_id(),
        a.spec_device_id() == b.spec_device_id(),
    ensures
        a == b,
{
}

/// Two listed vendors with the same vendor ID are the same value.
pub proof fn lemma_vendor_eq(a: Vendor, b: Vendor)
    requires
        a.spec_id() == b.spec_id(),
    ensures
        a == b,
{
}

/// Two identities with the same kind, vendor ID and device ID are the same
/// value; in particular, resolving the same IDs twice gives equal
/// identities.
pub proof fn lemma_id_eq(a: Id, b: Id)
    requires
        a is Known <==> b is Known,
        a.spec_vendor_id() == b.spec_vendor_id(),
        a.spec_device_id() == b.spec_device_id(),
    ensures
        a == b,
{
    match (a, b) {
        (Id::Known(x), Id::Known(y)) => lemma_known_id_eq(x, y),
        _ => {},
    }
}

/// The identity that IDs resolve to carries those IDs, and is a listed
/// device exactly when the database lists them.
pub proof fn lemma_resolve_ids(raw: RawIds)
    ensures
        raw.spec_resolve() is Known <==> raw.listed(),
        raw.spec_resolve().spec_vendor_id() == raw.vendor_id,
        raw.spec_resolve().spec_device_id() == raw.device_id,
{
}

/// A PCI device.
#[derive(Debug)]
pub struct Device {
    pub header: Header,
    pub details: Kind,
}

/// A PCI device header: the fields common to all PCI devices, whether they
/// are standard devices, PCI-to-PCI bridges or PCI-to-CardBus bridges.
///
/// The header has the following layout:
///
/// | Bits 31-24      | Bits 23-16      | Bits 15-8       | Bits 7-0        |
/// |-----------------|-----------------|-----------------|-----------------|
/// | Device ID       |                 | Vendor ID       |                 |
/// | Status          |                 | Command         |                 |
/// | Class code      | Subclass code   | Prog IF         | Revision ID     |
/// | BIST register   | Header type     | Latency timer   | Cache line size |
#[derive(Debug, Copy, Clone)]
pub struct Header {
    /// The device's vendor ID and device ID.
    pub id: RawIds,
    /// The device's command register.
    pub command: Command,
    /// The device's status register.
    pub status: Status,
    /// Specifies a revision identifier for a particular device.
    ///
    /// Revision IDs are allocated by the device's vendor.
    pub revision_id: u8,
    /// Programming interface: a read-only register that specifies a
    /// register-level programming interface the device has, if it has any
    /// at all.
    pub prog_if: u8,
    /// The device's class and subclass codes.
    pub class: RawClasses,
    /// Specifies the system cache line size in 32-bit units.
    pub cache_line_size: u8,
    /// Specifies the latency timer in units of PCI bus clocks.
    pub latency_timer: u8,
    /// Identifies the kind of device and the layout of the rest of the
    /// device's configuration-space header, and whether it has several
    /// functions.
    pub header_type: HeaderTypeReg,
    /// A read-write register for running the device's built-in self test.
    pub bist: Bist,
}

/// The kind of a PCI device, with the part of its header that is particular
/// to that kind.
#[derive(Debug)]
pub enum Kind {
    Standard(StandardDetails),
    PciBridge(PciBridgeDetails),
    CardBus(CardBusDetails),
}

/// The header fields of a standard PCI device (not a bridge).
#[derive(Debug)]
pub struct StandardDetails {
    /// The raw base address registers.
    pub base_addrs: [u32; 6],
    /// Points to the Card Information Structure and is used by devices that
    /// share silicon between CardBus and PCI.
    pub cardbus_cis_ptr: u32,
    pub subsystem: SubsystemId,
    /// Expansion ROM base address.
    pub exp_rom_base_addr: u32,
    /// Points (as an offset into this function's configuration space) to a
    /// linked list of capabilities implemented by the device. Used if bit 4
    /// of the status register is set. The bottom two bits are reserved and
    /// should be masked before the pointer is used.
    pub cap_ptr: u8,
    pub _res0: [u8; 7],
    /// Which input of the system interrupt controllers the device's
    /// interrupt pin is connected to. On x86 this is a PIC IRQ number
    /// (0-15), and `0xFF` means no connection.
    pub irq_line: u8,
    /// The raw interrupt pin register; see [`StandardDetails::irq_pin`].
    pub irq_pin: u8,
    /// The burst period length, in 1/4 microsecond units, that the device
    /// needs (assuming a 33 MHz clock rate).
    pub min_grant: u8,
    /// How often the device needs access to the PCI bus, in 1/4 microsecond
    /// units.
    pub max_latency: u8,
}

/// The header fields of a PCI-to-PCI bridge.
#[derive(Debug)]
pub struct PciBridgeDetails {
    /// The raw base address registers.
    pub base_addrs: [u32; 2],
}

/// The header fields of a PCI-to-CardBus bridge.
#[derive(Debug)]
pub struct CardBusDetails {}

/// The subsystem vendor ID and subsystem ID of a standard PCI device.
#[derive(Debug)]
pub struct SubsystemId {
    pub vendor_id: u16,
    pub subsystem: u16,
}

/// Specifies which interrupt pin a standard PCI device uses.
///
/// A value of `0x1` is `INTA#`, `0x2` is `INTB#`, `0x3` is `INTC#`, `0x4` is
/// `INTD#`, and `0x0` means the device does not use an interrupt pin.
#[derive(Copy, Clone, Debug, Eq, PartialEq)]
pub enum IrqPin {
    IntA,
    IntB,
    IntC,
    IntD,
}

impl IrqPin {
    /// The value of the interrupt pin register that selects this pin.
    pub open spec fn spec_bits(self) -> u8 {
        match self {
            IrqPin::IntA => 0x01,
            IrqPin::IntB => 0x02,
            IrqPin::IntC => 0x03,
            IrqPin::IntD => 0x04,
        }
    }

    /// The value of the interrupt pin register that selects this pin.
    pub fn bits(self) -> (b: u8)
        ensures
            b == self.spec_bits(),
    {
        match self {
            IrqPin::IntA => 0x01,
            IrqPin::IntB => 0x02,
            IrqPin::IntC => 0x03,
            IrqPin::IntD => 0x04,
        }
    }
}

/// The field name reported for an interrupt pin register that selects no
/// pin this library knows.
pub const IRQ_PIN_FIELD: &'static str = "IRQ pin";

/// What an interrupt pin register value means.
pub open spec fn spec_irq_pin(bits: u8) -> Result<Option<IrqPin>, UnexpectedValue<u8>> {
    if bits == 0x00 {
        Ok(None)
    } else if bits == 0x01 {
        Ok(Some(IrqPin::IntA))
    } else if bits == 0x02 {
        Ok(Some(IrqPin::IntB))
    } else if bits == 0x03 {
        Ok(Some(IrqPin::IntC))
    } else if bits == 0x04 {
        Ok(Some(IrqPin::IntD))
    } else {
        Err(spec_unexpected_named(bits, IRQ_PIN_FIELD))
    }
}

/// Each pin's register value reads back as that pin, zero reads as no pin,
/// and every other value is an error that carries the value.
pub proof fn lemma_irq_pin_bits(p: IrqPin, bits: u8)
    ensures
        spec_irq_pin(p.spec_bits()) == Ok::<Option<IrqPin>, UnexpectedValue<u8>>(Some(p)),
        spec_irq_pin(bits) is Ok <==> bits <= 4,
        spec_irq_pin(bits) matches Ok(Some(q)) ==> q.spec_bits() == bits,
        spec_irq_pin(bits) == Ok::<Option<IrqPin>, UnexpectedValue<u8>>(None) <==> bits == 0,
        spec_irq_pin(bits) matches Err(e) ==> e.value == bits,
{
}

impl Header {
    /// The header type field of the header type register.
    pub fn header_type(&self) -> (r: Result<HeaderType, UnexpectedValue<u8>>)
        ensures
            r == self.header_type.spec_header_type(),
    {
        self.header_type.header_type()
    }

    /// Whether the device has multiple functions.
    pub fn is_multifunction(&self) -> (m: bool)
        ensures
            m == multifunction_field(self.header_type.bits),
    {
        self.header_type.is_multifunction()
    }

    /// The device's identity, looked up in the PCI ID database.
    #[must_use]
    pub fn id(&self) -> (id: Id)
        ensures
            id == self.id.spec_resolve(),
            id is Known <==> self.id.listed(),
            id.spec_vendor_id() == self.id.vendor_id,
            id.spec_device_id() == self.id.device_id,
            id is Unknown ==> id == Id::Unknown(self.id),
    {
        self.id.resolve()
    }

    /// The device's class and subclass, looked up in the PCI ID database.
    pub fn classes(&self) -> (r: Result<Classes, UnexpectedValue<RawClasses>>)
        ensures
            r is Ok <==> self.class.subclass_listed(),
            r is Ok ==> self.class.class_listed(),
            r matches Ok(c) ==> {
                &&& c.spec_class().spec_id() == self.class.class
                &&& c.spec_subclass().spec_class_id() == self.class.class
                &&& c.spec_subclass().spec_id() == self.class.subclass
            },
            r matches Err(e) ==> e == spec_unexpected(self.class),
    {
        self.class.resolve()
    }

    /// The device's class, looked up in the PCI ID database.
    pub fn class(&self) -> (r: Result<Class, UnexpectedValue<u8>>)
        ensures
            r is Ok <==> self.class.class_listed(),
            r matches Ok(c) ==> c.spec_id() == self.class.class,
            r matches Err(e) ==> e == spec_unexpected(self.class.class),
    {
        self.class.resolve_class()
    }

    /// The device's subclass, looked up in the PCI ID database.
    pub fn subclass(&self) -> (r: Result<Subclass, UnexpectedValue<u8>>)
        ensures
            r is Ok <==> self.class.subclass_listed(),
            r is Ok ==> self.class.class_listed(),
            r matches Ok(s) ==> s.spec_class_id() == self.class.class && s.spec_id() == self.class.subclass,
            r matches Err(e) ==> e == spec_unexpected(self.class.subclass),
    {
        self.class.resolve_subclass()
    }
}

impl StandardDetails {
    /// Returns this device's base address registers (BARs), decoded.
    pub fn base_addrs(&self) -> (r: Result<[Option<BaseAddress>; 6], UnexpectedValue<u32>>)
        ensures
            match r {
                Ok(decoded) => spec_decode_bars(self.base_addrs@) == Ok::<Seq<Option<BaseAddress>>, UnexpectedValue<u32>>(decoded@),
                Err(e) => spec_decode_bars(self.base_addrs@) == Err::<Seq<Option<BaseAddress>>, UnexpectedValue<u32>>(e),
            },
    {
        BaseAddress::decode_bars(&self.base_addrs)
    }

    /// Returns which IRQ pin this device uses.
    ///
    /// # Returns
    ///
    /// - `Err(UnexpectedValue)` if the value is not a valid IRQ pin.
    /// - `None` if this device does not use an IRQ pin.
    /// - `Some(IrqPin)` if this device specifies a valid IRQ pin.
    pub fn irq_pin(&self) -> (r: Result<Option<IrqPin>, UnexpectedValue<u8>>)
        ensures
            r == spec_irq_pin(self.irq_pin),
    {
        match self.irq_pin {
            0x00 => Ok(None),
            0x01 => Ok(Some(IrqPin::IntA)),
            0x02 => Ok(Some(IrqPin::IntB)),
            0x03 => Ok(Some(IrqPin::IntC)),
            0x04 => Ok(Some(IrqPin::IntD)),
            bits => Err(unexpected(bits).named(IRQ_PIN_FIELD)),
        }
    }
}

impl PciBridgeDetails {
    /// Returns this device's base address registers (BARs), decoded.
    pub fn base_addrs(&self) -> (r: Result<[Option<BaseAddress>; 2], UnexpectedValue<u32>>)
        ensures
            match r {
                Ok(decoded) => spec_decode_bars(self.base_addrs@) == Ok::<Seq<Option<BaseAddress>>, UnexpectedValue<u32>>(decoded@),
                Err(e) => spec_decode_bars(self.base_addrs@) == Err::<Seq<Option<BaseAddress>>, UnexpectedValue<u32>>(e),
            },
    {
        BaseAddress::decode_bars(&self.base_addrs)
    }
}

} // verus!
