//! Descriptors of the electrical buses that can power a device.

use vstd::prelude::*;

verus! {

/// An electrical bus of the aircraft. The unit does not look into a
/// descriptor: it hands each one to the device that is to be powered from it.
#[derive(Clone, Copy, PartialEq, Eq, Structural, Debug)]
pub enum ElectricalBusType {
    AlternatingCurrent(u8),
    AlternatingCurrentEssential,
    AlternatingCurrentEssentialShed,
    DirectCurrent(u8),
    DirectCurrentEssential,
    DirectCurrentEssentialShed,
    DirectCurrentBattery,
}

} // verus!
