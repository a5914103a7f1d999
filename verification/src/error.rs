use vstd::prelude::*;

verus! {

/// A value read from a device that does not encode anything this library
/// understands.
///
/// `name`, when present, says which field or register the value was read
/// from.
#[derive(Debug, Clone, Copy, PartialEq, Eq)]
pub struct UnexpectedValue<T> {
    pub name: Option<&'static str>,
    pub value: T,
}

/// An unexpected value that carries no field name.
pub open spec fn spec_unexpected<T>(value: T) -> UnexpectedValue<T> {
    UnexpectedValue { name: None, value }
}

/// An unexpected value read from the field called `name`.
pub open spec fn spec_unexpected_named<T>(value: T, name: &'static str) -> UnexpectedValue<T> {
    UnexpectedValue { name: Some(name), value }
}

/// Wraps `value` as an unexpected value with no field name.
pub fn unexpected<T>(value: T) -> (e: UnexpectedValue<T>)
    ensures
        e == spec_unexpected(value),
{
    UnexpectedValue { name: None, value }
}

impl<T> UnexpectedValue<T> {
    /// Attaches the name of the field the value was read from.
    pub fn named(self, name: &'static str) -> (e: Self)
        ensures
            e == spec_unexpected_named(self.value, name),
    {
        UnexpectedValue { name: Some(name), value: self.value }
    }

    /// The value that was read.
    pub fn value(&self) -> (v: &T)
        ensures
            *v == self.value,
    {
        &self.value
    }

    /// The name of the field the value was read from, if it is known.
    pub fn name(&self) -> (n: Option<&'static str>)
        ensures
            n == self.name,
    {
        self.name
    }
}

} // verus!
