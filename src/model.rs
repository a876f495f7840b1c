use vstd::prelude::*;

use crate::nibble::PacketNibble;

verus! {

/// Position of the first of the four nibbles that identify the model.
pub const MODEL_ID_START: usize = 6;

/// Position of the nibble that alone identifies some models.
pub const MODEL_ID_SINGLE: usize = 7;

/// The accessory families that the decoder recognises.
#[derive(Debug, Clone, Copy, PartialEq, Eq, Structural)]
pub enum Model {
    AirPods1,
    AirPods2,
    AirPods3,
    AirPodsPro,
    AirPodsPro2,
    AirPodsPro2Usbc,
    AirPodsMax,
    PowerbeatsPro,
    BeatsX,
    BeatsFlex,
    BeatsSolo3,
    BeatsStudio3,
    Powerbeats3,
    Unknown,
}

/// The 16-bit identifier made of nibbles 6 to 9, most significant first.
pub open spec fn id_full(n: Seq<u8>) -> int {
    let s = MODEL_ID_START as int;
    4096 * n[s] + 256 * n[s + 1] + 16 * n[s + 2] + n[s + 3]
}

/// The identifier made of nibble 7 alone.
pub open spec fn id_single(n: Seq<u8>) -> int {
    n[MODEL_ID_SINGLE as int] as int
}

/// The model named by the nibbles `n`: the first rule that matches, in order,
/// with `Unknown` when none does.
pub open spec fn model_of(n: Seq<u8>) -> Model {
    let full = id_full(n);
    let single = id_single(n);
    if full == 0x0220 {
        Model::AirPods1
    } else if full == 0x0F20 {
        Model::AirPods2
    } else if full == 0x1320 {
        Model::AirPods3
    } else if full == 0x0E20 {
        Model::AirPodsPro
    } else if full == 0x1420 {
        Model::AirPodsPro2
    } else if full == 0x2420 {
        Model::AirPodsPro2Usbc
    } else if single == 0xA {
        Model::AirPodsMax
    } else if single == 0xB {
        Model::PowerbeatsPro
    } else if full == 0x0520 {
        Model::BeatsX
    } else if full == 0x1020 {
        Model::BeatsFlex
    } else if full == 0x0620 {
        Model::BeatsSolo3
    } else if single == 0x9 {
        Model::BeatsStudio3
    } else if full == 0x0320 {
        Model::Powerbeats3
    } else {
        Model::Unknown
    }
}

/// The models with one physical earpiece and no case.
pub open spec fn is_single_model(m: Model) -> bool {
    match m {
        Model::AirPodsMax | Model::BeatsX | Model::BeatsFlex | Model::BeatsSolo3
        | Model::BeatsStudio3 | Model::Powerbeats3 => true,
        _ => false,
    }
}

impl Model {
    /// Identifies the model from nibbles 6 to 9 of the payload.
    pub fn parse(raw: &PacketNibble) -> (m: Model)
        requires
            crate::nibble::is_nibbles(raw@),
        ensures
            m == model_of(raw@),
    {
        let id_single = raw[MODEL_ID_SINGLE];
        let n0 = raw[MODEL_ID_START] as u16;
        let n1 = raw[MODEL_ID_START + 1] as u16;
        let n2 = raw[MODEL_ID_START + 2] as u16;
        let n3 = raw[MODEL_ID_START + 3] as u16;
        assert(n0 < 16 && n1 < 16 && n2 < 16 && n3 < 16);
        let id_full: u16 = ((n0 & 0x0F) << 12) | ((n1 & 0x0F) << 8) | ((n2 & 0x0F) << 4) | (n3
            & 0x0F);
        assert(id_full == 4096 * n0 + 256 * n1 + 16 * n2 + n3) by (bit_vector)
            requires
                n0 < 16,
                n1 < 16,
                n2 < 16,
                n3 < 16,
                id_full == ((n0 & 0x0F) << 12) | ((n1 & 0x0F) << 8) | ((n2 & 0x0F) << 4) | (n3
                    & 0x0F),
        ;
        if id_full == 0x0220 {
            Model::AirPods1
        } else if id_full == 0x0F20 {
            Model::AirPods2
        } else if id_full == 0x1320 {
            Model::AirPods3
        } else if id_full == 0x0E20 {
            Model::AirPodsPro
        } else if id_full == 0x1420 {
            Model::AirPodsPro2
        } else if id_full == 0x2420 {
            Model::AirPodsPro2Usbc
        } else if id_single == 0xA {
            Model::AirPodsMax
        } else if id_single == 0xB {
            Model::PowerbeatsPro
        } else if id_full == 0x0520 {
            Model::BeatsX
        } else if id_full == 0x1020 {
            Model::BeatsFlex
        } else if id_full == 0x0620 {
            Model::BeatsSolo3
        } else if id_single == 0x9 {
            Model::BeatsStudio3
        } else if id_full == 0x0320 {
            Model::Powerbeats3
        } else {
            Model::Unknown
        }
    }
}

} // verus!
