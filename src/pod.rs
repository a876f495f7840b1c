use vstd::prelude::*;

use crate::device::{
    build_devices, case_of, raw_left, raw_right, swapped, Device, CASE_BATTERY, POD1_BATTERY,
    POD2_BATTERY,
};
use crate::model::{is_single_model, model_of, Model};
use crate::nibble::{is_nibbles, nibbles_of, split_u8_to_u4_array, Packet, PacketNibble};

verus! {

/// Battery level that marks a unit as not connected: a battery nibble of 0xF.
pub const DISCONNECTED_BATTERY: u8 = 150;

/// The decoded status of one accessory.
#[derive(Debug, Clone, Copy, PartialEq, Eq, Structural)]
pub struct Pod {
    /// Which model was found.
    pub model: Model,
    /// The left earpiece; `None` if disconnected.
    pub left: Option<Device>,
    /// The right earpiece; `None` if disconnected.
    pub right: Option<Device>,
    /// The case; `None` if disconnected or if the model has no case.
    pub case: Option<Device>,
}

/// `d`, unless its battery is the level that marks a disconnected unit.
pub open spec fn present(d: Device) -> Option<Device> {
    if d.battery == DISCONNECTED_BATTERY {
        None
    } else {
        Some(d)
    }
}

/// The status that the nibbles `n` describe.
pub open spec fn pod_of(n: Seq<u8>) -> Pod {
    let model = model_of(n);
    let left = present(raw_left(n));
    if is_single_model(model) {
        Pod { model, left, right: left, case: None }
    } else {
        Pod { model, left, right: present(raw_right(n)), case: present(case_of(n)) }
    }
}

/// The status that the payload bytes `p` describe.
pub open spec fn decode(p: Seq<u8>) -> Pod {
    pod_of(nibbles_of(p))
}

/// Every payload of the expected length decodes: its nibbles meet what
/// [`Pod::parse`] asks of its input, and each yields one status.
pub proof fn lemma_decode_total(p: Seq<u8>)
    requires
        p.len() == crate::nibble::PACKET_LEN,
    ensures
        nibbles_of(p).len() == crate::nibble::NIBBLE_LEN,
        is_nibbles(nibbles_of(p)),
        decode(p) == pod_of(nibbles_of(p)),
{
    crate::nibble::lemma_split_round_trip(p);
}

/// For a model with a single earpiece the right slot repeats the left one
/// and there is no case, whatever the other nibbles hold.
pub proof fn lemma_single_model_mirrors(n: Seq<u8>)
    requires
        is_single_model(model_of(n)),
    ensures
        pod_of(n).right == pod_of(n).left,
        pod_of(n).case is None,
{
}

/// The battery nibble of the unit that ends up in the left slot.
pub open spec fn left_battery_nibble(n: Seq<u8>) -> u8 {
    if swapped(n) {
        n[POD2_BATTERY as int]
    } else {
        n[POD1_BATTERY as int]
    }
}

/// The battery nibble of the unit that ends up in the right slot.
pub open spec fn right_battery_nibble(n: Seq<u8>) -> u8 {
    if swapped(n) {
        n[POD1_BATTERY as int]
    } else {
        n[POD2_BATTERY as int]
    }
}

/// A unit whose battery nibble is 0xF is reported absent; for a model with a
/// single earpiece the right slot follows the left one instead and the case
/// is absent anyway. A left earpiece with any other battery nibble is present.
pub proof fn lemma_disconnected_absent(n: Seq<u8>)
    requires
        n.len() == crate::nibble::NIBBLE_LEN,
        is_nibbles(n),
    ensures
        left_battery_nibble(n) == 0xF ==> pod_of(n).left is None,
        left_battery_nibble(n) != 0xF ==> pod_of(n).left is Some,
        right_battery_nibble(n) == 0xF && !is_single_model(model_of(n))
            ==> pod_of(n).right is None,
        n[CASE_BATTERY as int] == 0xF ==> pod_of(n).case is None,
{
    assert(n[POD1_BATTERY as int] < 16 && n[POD2_BATTERY as int] < 16);
}

impl Pod {
    /// Decodes the status of an accessory from its payload split into nibbles.
    pub fn parse(raw: &PacketNibble) -> (pod: Pod)
        requires
            is_nibbles(raw@),
        ensures
            pod == pod_of(raw@),
    {
        let model = Model::parse(raw);
        let devices = build_devices(raw);
        let left_raw = devices[0];
        let right_raw = devices[1];
        let case_raw = devices[2];
        let mut left = Some(left_raw);
        let mut right = Some(right_raw);
        let mut case = Some(case_raw);

        let single = match model {
            Model::Unknown => false,
            Model::AirPods1 => false,
            Model::AirPods2 => false,
            Model::AirPods3 => false,
            Model::AirPodsPro => false,
            Model::AirPodsPro2 => false,
            Model::AirPodsPro2Usbc => false,
            Model::AirPodsMax => true,
            Model::PowerbeatsPro => false,
            Model::BeatsX => true,
            Model::BeatsFlex => true,
            Model::BeatsSolo3 => true,
            Model::BeatsStudio3 => true,
            Model::Powerbeats3 => true,
        };

        if left_raw.battery == DISCONNECTED_BATTERY {
            left = None;
        }
        if right_raw.battery == DISCONNECTED_BATTERY {
            right = None;
        }
        if case_raw.battery == DISCONNECTED_BATTERY {
            case = None;
        }

        if single {
            right = left;
            case = None;
        }

        Pod { model, left, right, case }
    }
}

/// Decodes every payload, in order.
pub fn pods_from_payloads(payloads: &Vec<Packet>) -> (pods: Vec<Pod>)
    ensures
        pods@.len() == payloads@.len(),
        forall|i: int| 0 <= i < payloads@.len() ==> #[trigger] pods@[i] == decode(payloads@[i]@),
{
    let mut pods: Vec<Pod> = Vec::new();
    let mut i: usize = 0;
    while i < payloads.len()
        invariant
            i <= payloads@.len(),
            pods@.len() == i,
            forall|k: int| 0 <= k < i ==> #[trigger] pods@[k] == decode(payloads@[k]@),
        decreases payloads@.len() - i,
    {
        let nibbles = split_u8_to_u4_array(&payloads[i]);
        pods.push(Pod::parse(&nibbles));
        i += 1;
    }
    pods
}

} // verus!
