//! The representation of the external appearance of the device.

use vstd::prelude::*;

use crate::uuid::{BluetoothUuid16, spec_appearance, spec_le_bytes};

verus! {

/// Construct a new appearance value for the GAP Service, as its bytes.
pub fn new(category: u8, subcategory: u8) -> (r: [u8; 2])
    ensures
        r@ == spec_le_bytes(spec_appearance(category, subcategory)),
{
    BluetoothUuid16::new(((category as u16) << 6u16) | (subcategory as u16)).to_le_bytes()
}

/// Construct a new appearance value for the GAP Service.
pub fn from_category(category: u8, subcategory: u8) -> (r: BluetoothUuid16)
    ensures
        r@ == spec_appearance(category, subcategory),
{
    BluetoothUuid16::new(((category as u16) << 6u16) | (subcategory as u16))
}

/// Generic Unknown device appearance (category 0x000).
pub const GENERIC_UNKNOWN: [u8; 2] = [0x00, 0x00];
/// Generic Phone device appearance (category 0x001).
pub const GENERIC_PHONE: [u8; 2] = [0x40, 0x00];
/// Generic Computer device appearance (category 0x002).
pub const GENERIC_COMPUTER: [u8; 2] = [0x80, 0x00];
/// Smart Watch device appearance (category 0x003, subcategory 0x020).
pub const SMART_WATCH: [u8; 2] = [0xe0, 0x00];
/// Generic Power device appearance (category 0x01E).
pub const GENERIC_POWER: [u8; 2] = [0x80, 0x07];
/// Generic Sensor device appearance (category 0x015).
pub const GENERIC_SENSOR: [u8; 2] = [0x40, 0x05];
/// Gamepad device appearance (category 0x00F, subcategory 0x040).
pub const GAMEPAD: [u8; 2] = [0xc0, 0x03];

} // verus!
