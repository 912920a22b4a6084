use vstd::prelude::*;

verus! {

/// The Broadcom line that a header pin is wired to, for the header pins the
/// relay board uses. Any other number is taken to be a Broadcom line already.
pub open spec fn bcm_line(physical_pin: u32) -> u32 {
    if physical_pin == 37 {
        26
    } else if physical_pin == 38 {
        20
    } else if physical_pin == 22 {
        25
    } else if physical_pin == 23 {
        24
    } else {
        physical_pin
    }
}

/// Whether the translation table has an entry for this header pin.
pub open spec fn is_mapped(physical_pin: u32) -> bool {
    physical_pin == 37 || physical_pin == 38 || physical_pin == 22 || physical_pin == 23
}

/// Tells whether the translation table has an entry for this header pin.
/// A pin without one is handed to the tools under its own number.
pub fn is_mapped_pin(physical_pin: u32) -> (mapped: bool)
    ensures
        mapped == is_mapped(physical_pin),
        !mapped ==> bcm_line(physical_pin) == physical_pin,
{
    physical_pin == 37 || physical_pin == 38 || physical_pin == 22 || physical_pin == 23
}

/// Translates a header pin number into Broadcom numbering.
pub fn physical_to_bcm(physical_pin: u32) -> (bcm: u32)
    ensures
        bcm == bcm_line(physical_pin),
{
    match physical_pin {
        37 => 26,
        38 => 20,
        22 => 25,
        23 => 24,
        _ => physical_pin,
    }
}

} // verus!
