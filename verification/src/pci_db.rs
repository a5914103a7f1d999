use vstd::prelude::*;

verus! {

/// The name the PCI ID database gives the vendor with this ID, if it lists
/// one.
pub uninterp spec fn pci_vendor_name(vendor_id: u16) -> Option<Seq<char>>;

/// The name the PCI ID database gives the device with this vendor and device
/// ID, if it lists one.
pub uninterp spec fn pci_device_name(vendor_id: u16, device_id: u16) -> Option<Seq<char>>;

/// The name the PCI ID database gives this device class, if it lists one.
pub uninterp spec fn pci_class_name(class: u8) -> Option<Seq<char>>;

/// The name the PCI ID database gives this subclass of this class, if it
/// lists one.
pub uninterp spec fn pci_subclass_name(class: u8, subclass: u8) -> Option<Seq<char>>;

/// The view of an optional name.
pub open spec fn name_view(name: Option<&'static str>) -> Option<Seq<char>> {
    match name {
        Some(s) => Some(s@),
        None => None,
    }
}

/// Looks a device up in the PCI ID database with `pci_ids::Device::from_vid_pid`
/// and returns its name.
///
/// Claimed of it: the result is the database's entry for exactly these two
/// IDs, and a device is only found under a vendor the database lists
/// (`from_vid_pid` searches the devices of `Vendor::from_id(vendor_id)`).
#[verifier::external_body]
pub(crate) fn lookup_device_name(vendor_id: u16, device_id: u16) -> (r: Option<&'static str>)
    ensures
        name_view(r) == pci_device_name(vendor_id, device_id),
        r is Some ==> pci_vendor_name(vendor_id) is Some,
{
    pci_ids::Device::from_vid_pid(vendor_id, device_id).map(|d| d.name())
}

/// Looks a vendor up in the PCI ID database with `pci_ids::Vendor::from_id`
/// and returns its name.
///
/// Claimed of it: the result is the database's entry for exactly this ID.
#[verifier::external_body]
pub(crate) fn lookup_vendor_name(vendor_id: u16) -> (r: Option<&'static str>)
    ensures
        name_view(r) == pci_vendor_name(vendor_id),
{
    <pci_ids::Vendor as pci_ids::FromId<u16>>::from_id(vendor_id).map(|v| v.name())
}

/// Looks a device class up in the PCI ID database with
/// `pci_ids::Class::from_id` and returns its name.
///
/// Claimed of it: the result is the database's entry for exactly this ID.
#[verifier::external_body]
pub(crate) fn lookup_class_name(class: u8) -> (r: Option<&'static str>)
    ensures
        name_view(r) == pci_class_name(class),
{
    <pci_ids::Class as pci_ids::FromId<u8>>::from_id(class).map(|c| c.name())
}

/// Looks a subclass up in the PCI ID database with
/// `pci_ids::Subclass::from_cid_sid` and returns its name.
///
/// Claimed of it: the result is the database's entry for exactly these two
/// IDs, and a subclass is only found under a class the database lists
/// (`from_cid_sid` searches the subclasses of `Class::from_id(class)`).
#[verifier::external_body]
pub(crate) fn lookup_subclass_name(class: u8, subclass: u8) -> (r: Option<&'static str>)
    ensures
        name_view(r) == pci_subclass_name(class, subclass),
        r is Some ==> pci_class_name(class) is Some,
{
    pci_ids::Subclass::from_cid_sid(class, subclass).map(|s| s.name())
}

} // verus!
