//! UUID values.
//!
//! A UUID is held as its 128-bit value; the queue file and the wire protocol
//! write it in the hyphenated hexadecimal form.
use vstd::prelude::*;

verus! {

/// A UUID, held as its 128-bit value.
#[derive(Debug, Clone, Copy, PartialEq, Eq, Structural, Hash)]
pub struct UuidString(pub u128);

impl View for UuidString {
    type V = u128;

    open spec fn view(&self) -> u128 {
        self.0
    }
}

/// Relies on `uuid::Uuid::new_v4` and `Uuid::as_u128`: a fresh random UUID
/// whose version nibble is four and whose variant bits are binary `10`, as
/// `new_v4`'s masking shows.
#[verifier::external_body]
fn uuid_v4_value() -> (r: u128)
    ensures
        (r / 0x10000000000000000000 as u128) % 16 == 4,
        (r / 0x4000000000000000 as u128) % 4 == 2,
{
    uuid::Uuid::new_v4().as_u128()
}

impl UuidString {
    /// A fresh random (version 4) UUID.
    pub fn new_v4() -> (r: UuidString)
        ensures
            (r@ / 0x10000000000000000000 as u128) % 16 == 4,
    {
        UuidString(uuid_v4_value())
    }
}

} // verus!
