use vstd::prelude::*;

use crate::error::{spec_unexpected, unexpected, UnexpectedValue};
use crate::pci_db::{lookup_class_name, lookup_subclass_name, pci_class_name, pci_subclass_name};

verus! {

/// The raw class and subclass codes of a PCI device, as they appear in its
/// configuration-space header.
#[derive(Copy, Clone, Debug, PartialEq, Eq)]
pub struct RawClasses {
    pub subclass: u8,
    pub class: u8,
}

/// A device class that the PCI ID database lists.
#[derive(Copy, Clone, Debug, PartialEq, Eq)]
pub struct Class {
    id: u8,
}

/// A subclass that the PCI ID database lists under its class.
#[derive(Copy, Clone, Debug, PartialEq, Eq)]
pub struct Subclass {
    class_id: u8,
    id: u8,
}

/// A device's class together with its subclass.
#[derive(Copy, Clone, Debug, PartialEq, Eq)]
pub struct Classes {
    class: Class,
    subclass: Subclass,
}

impl Class {
    #[verifier::type_invariant]
    spec fn listed(self) -> bool {
        pci_class_name(self.id) is Some
    }

    /// The class code.
    pub closed spec fn spec_id(self) -> u8 {
        self.id
    }

    /// The class code.
    pub fn id(&self) -> (r: u8)
        ensures
            r == self.spec_id(),
    {
        self.id
    }

    /// The class's name in the PCI ID database.
    pub fn name(&self) -> (r: &'static str)
        ensures
            pci_class_name(self.spec_id()) == Some(r@),
    {
        proof {
            use_type_invariant(self);
        }
        lookup_class_name(self.id).unwrap()
    }
}

impl Subclass {
    #[verifier::type_invariant]
    spec fn listed(self) -> bool {
        &&& pci_subclass_name(self.class_id, self.id) is Some
        &&& pci_class_name(self.class_id) is Some
    }

    /// The code of the class this subclass belongs to.
    pub closed spec fn spec_class_id(self) -> u8 {
        self.class_id
    }

    /// The subclass code.
    pub closed spec fn spec_id(self) -> u8 {
        self.id
    }

    /// The subclass code.
    pub fn id(&self) -> (r: u8)
        ensures
            r == self.spec_id(),
    {
        self.id
    }

    /// The class this subclass belongs to.
    pub fn class(&self) -> (c: Class)
        ensures
            c.spec_id() == self.spec_class_id(),
    {
        proof {
            use_type_invariant(self);
        }
        Class { id: self.class_id }
    }

    /// The class and subclass codes.
    pub fn as_cid_sid(&self) -> (r: (u8, u8))
        ensures
            r == (self.spec_class_id(), self.spec_id()),
    {
        (self.class_id, self.id)
    }

    /// The subclass's name in the PCI ID database.
    pub fn name(&self) -> (r: &'static str)
        ensures
            pci_subclass_name(self.spec_class_id(), self.spec_id()) == Some(r@),
    {
        proof {
            use_type_invariant(self);
        }
        lookup_subclass_name(self.class_id, self.id).unwrap()
    }
}

impl Classes {
    /// The device's class.
    pub fn class(&self) -> (c: Class)
        ensures
            c == self.spec_class(),
    {
        self.class
    }

    /// The device's subclass.
    pub fn subclass(&self) -> (s: Subclass)
        ensures
            s == self.spec_subclass(),
    {
        self.subclass
    }

    /// The device's class.
    pub closed spec fn spec_class(self) -> Class {
        self.class
    }

    /// The device's subclass.
    pub closed spec fn spec_subclass(self) -> Subclass {
        self.subclass
    }
}

impl RawClasses {
    /// Whether the PCI ID database lists this class code.
    pub open spec fn class_listed(self) -> bool {
        pci_class_name(self.class) is Some
    }

    /// Whether the PCI ID database lists this subclass code under this class
    /// code.
    pub open spec fn subclass_listed(self) -> bool {
        pci_subclass_name(self.class, self.subclass) is Some
    }

    /// Resolves the class code.
    ///
    /// Fails, with the class code as the unexpected value, exactly when the
    /// PCI ID database does not list it.
    pub fn resolve_class(&self) -> (r: Result<Class, UnexpectedValue<u8>>)
        ensures
            r is Ok <==> self.class_listed(),
            r matches Ok(c) ==> c.spec_id() == self.class,
            r matches Err(e) ==> e == spec_unexpected(self.class),
    {
        match lookup_class_name(self.class) {
            Some(_) => Ok(Class { id: self.class }),
            None => Err(unexpected(self.class)),
        }
    }

    /// Resolves the subclass code within the class.
    ///
    /// Fails, with the subclass code as the unexpected value, exactly when
    /// the PCI ID database does not list it under the class.
    pub fn resolve_subclass(&self) -> (r: Result<Subclass, UnexpectedValue<u8>>)
        ensures
            r is Ok <==> self.subclass_listed(),
            r is Ok ==> self.class_listed(),
            r matches Ok(s) ==> s.spec_class_id() == self.class && s.spec_id() == self.subclass,
            r matches Err(e) ==> e == spec_unexpected(self.subclass),
    {
        match lookup_subclass_name(self.class, self.subclass) {
            Some(_) => Ok(Subclass { class_id: self.class, id: self.subclass }),
            None => Err(unexpected(self.subclass)),
        }
    }

    /// Resolves both codes.
    ///
    /// Fails, with the raw codes as the unexpected value, exactly when the
    /// PCI ID database does not list the subclass under the class.
    pub fn resolve(&self) -> (r: Result<Classes, UnexpectedValue<RawClasses>>)
        ensures
            r is Ok <==> self.subclass_listed(),
            r is Ok ==> self.class_listed(),
            r matches Ok(c) ==> {
                &&& c.spec_class().spec_id() == self.class
                &&& c.spec_subclass().spec_class_id() == self.class
                &&& c.spec_subclass().spec_id() == self.subclass
            },
            r matches Err(e) ==> e == spec_unexpected(*self),
    {
        match lookup_subclass_name(self.class, self.subclass) {
            Some(_) => Ok(
                Classes {
                    class: Class { id: self.class },
                    subclass: Subclass { class_id: self.class, id: self.subclass },
                },
            ),
            None => Err(unexpected(*self)),
        }
    }
}

/// Two listed classes with the same class code are the same value.
pub proof fn lemma_class_eq(a: Class, b: Class)
    requires
        a.spec_id() == b.spec_id(),
    ensures
        a == b,
{
}

/// Two listed subclasses with the same class and subclass codes are the
/// same value.
pub proof fn lemma_subclass_eq(a: Subclass, b: Subclass)
    requires
        a.spec_class_id() == b.spec_class_id(),
        a.spec_id() == b.spec_id(),
    ensures
        a == b,
{
}

/// Two class pairs with equal classes and equal subclasses are the same
/// value.
pub proof fn lemma_classes_eq(a: Classes, b: Classes)
    requires
        a.spec_class() == b.spec_class(),
        a.spec_subclass() == b.spec_subclass(),
    ensures
        a == b,
{
}

} // verus!
