//! Decoder for the status payload that wireless earbuds and headphones
//! broadcast in the manufacturer data of a Bluetooth LE advertisement.
//!
//! A payload of [`PACKET_LEN`] bytes is split into nibbles, from which the
//! accessory model and the state of each earpiece and of the case are read.
pub mod device;
pub mod model;
pub mod nibble;
pub mod pod;

pub use device::Device;
pub use model::Model;
pub use nibble::{split_u8_to_u4_array, Packet, PacketNibble, PACKET_LEN, NIBBLE_LEN};
pub use pod::{pods_from_payloads, Pod};
