use vstd::prelude::*;

use crate::nibble::{is_nibbles, PacketNibble};

verus! {

/// Battery nibble of the first earpiece slot.
pub const POD1_BATTERY: usize = 13;

/// Battery nibble of the second earpiece slot.
pub const POD2_BATTERY: usize = 12;

/// Battery nibble of the case.
pub const CASE_BATTERY: usize = 15;

/// Nibble whose bits say which units are charging.
pub const CHARGE_BITS: usize = 14;

/// Nibble whose bits say which earpieces are worn.
pub const IN_EAR_BITS: usize = 11;

/// Nibble whose bit `SWAP_MASK` is clear when the earpieces come in reverse order.
pub const STATUS: usize = 10;

/// Charging bit of the first earpiece slot.
pub const CHARGE_POD1_MASK: u8 = 0b0001;

/// Charging bit of the second earpiece slot.
pub const CHARGE_POD2_MASK: u8 = 0b0010;

/// Charging bit of the case.
pub const CHARGE_CASE_MASK: u8 = 0b0100;

/// Worn bit of the first earpiece slot.
pub const IN_EAR_POD1_MASK: u8 = 0b0010;

/// Worn bit of the second earpiece slot.
pub const IN_EAR_POD2_MASK: u8 = 0b1000;

/// Bit of the status nibble that is set when the slots are in order.
pub const SWAP_MASK: u8 = 0b0010;

/// The state of one earpiece or of the case.
#[derive(Debug, Clone, Copy, PartialEq, Eq, Structural)]
pub struct Device {
    /// The battery level in percent, in steps of ten.
    pub battery: u8,
    /// True if the device is charging.
    pub charging: bool,
    /// Whether an earpiece is worn; `None` for the case.
    pub on_ear: Option<bool>,
}

/// The device with battery nibble `raw_battery`.
pub open spec fn device_spec(raw_battery: u8, charging: bool, on_ear: Option<bool>) -> Device {
    Device { battery: (10 * raw_battery) as u8, charging, on_ear }
}

/// Whether any bit of `mask` is set in `bits`.
pub open spec fn has_bit(bits: u8, mask: u8) -> bool {
    bits & mask != 0
}

/// The unit reported in the first earpiece slot.
pub open spec fn pod1_of(n: Seq<u8>) -> Device {
    device_spec(
        n[POD1_BATTERY as int],
        has_bit(n[CHARGE_BITS as int], CHARGE_POD1_MASK),
        Some(has_bit(n[IN_EAR_BITS as int], IN_EAR_POD1_MASK)),
    )
}

/// The unit reported in the second earpiece slot.
pub open spec fn pod2_of(n: Seq<u8>) -> Device {
    device_spec(
        n[POD2_BATTERY as int],
        has_bit(n[CHARGE_BITS as int], CHARGE_POD2_MASK),
        Some(has_bit(n[IN_EAR_BITS as int], IN_EAR_POD2_MASK)),
    )
}

/// The case as reported.
pub open spec fn case_of(n: Seq<u8>) -> Device {
    device_spec(n[CASE_BATTERY as int], has_bit(n[CHARGE_BITS as int], CHARGE_CASE_MASK), None)
}

/// Whether the earpieces come in reverse order, the second slot being the left.
pub open spec fn swapped(n: Seq<u8>) -> bool {
    n[STATUS as int] & SWAP_MASK == 0
}

/// The raw left earpiece, after the order is put right.
pub open spec fn raw_left(n: Seq<u8>) -> Device {
    if swapped(n) {
        pod2_of(n)
    } else {
        pod1_of(n)
    }
}

/// The raw right earpiece, after the order is put right.
pub open spec fn raw_right(n: Seq<u8>) -> Device {
    if swapped(n) {
        pod1_of(n)
    } else {
        pod2_of(n)
    }
}

impl Device {
    /// A device whose battery nibble is `raw_battery`, scaled to percent.
    fn new(raw_battery: u8, charging: bool, on_ear: Option<bool>) -> (d: Self)
        requires
            raw_battery < 16,
        ensures
            d == device_spec(raw_battery, charging, on_ear),
            d.battery as int == 10 * raw_battery,
    {
        Self { battery: raw_battery * 10, charging, on_ear }
    }
}

/// Whether the status nibble says that the earpieces come in reverse order.
fn is_swapped(raw: &PacketNibble) -> (r: bool)
    ensures
        r == swapped(raw@),
{
    let status_int = raw[STATUS];
    (status_int & SWAP_MASK) == 0
}

/// Reads the left earpiece, the right earpiece and the case, in that order,
/// before absent units are filtered out.
pub fn build_devices(raw: &PacketNibble) -> (r: [Device; 3])
    requires
        is_nibbles(raw@),
    ensures
        r[0] == raw_left(raw@),
        r[1] == raw_right(raw@),
        r[2] == case_of(raw@),
{
    let pod1_battery = raw[POD1_BATTERY];
    let pod2_battery = raw[POD2_BATTERY];
    let case_battery = raw[CASE_BATTERY];

    let charge_bits = raw[CHARGE_BITS];
    let charge_pod1 = (charge_bits & CHARGE_POD1_MASK) != 0;
    let charge_pod2 = (charge_bits & CHARGE_POD2_MASK) != 0;
    let charge_case = (charge_bits & CHARGE_CASE_MASK) != 0;

    let in_ear_bits = raw[IN_EAR_BITS];
    let in_ear_pod1 = (in_ear_bits & IN_EAR_POD1_MASK) != 0;
    let in_ear_pod2 = (in_ear_bits & IN_EAR_POD2_MASK) != 0;

    let mut device1 = Device::new(pod1_battery, charge_pod1, Some(in_ear_pod1));
    let mut device2 = Device::new(pod2_battery, charge_pod2, Some(in_ear_pod2));
    let case = Device::new(case_battery, charge_case, None);

    if is_swapped(raw) {
        core::mem::swap(&mut device1, &mut device2);
    }
    [device1, device2, case]
}

} // verus!
