//! Driver-facing structures of the NFC-tag service surface.
//!
//! These are the plain values the emulation protocol returns to games:
//! tag, registration, common, model and admin info, and the two state
//! enums of a session.

use vstd::prelude::*;

verus! {

/// A calendar date as the driver presents it.
#[derive(Clone, Copy, PartialEq, Eq, Structural, Debug)]
pub struct Date {
    pub year: u16,
    pub month: u8,
    pub day: u8,
}

/// A device handle; the emulator serves one fake device.
#[derive(Clone, Copy, PartialEq, Eq, Structural, Debug)]
pub struct DeviceHandle {
    pub id: u32,
}

/// Protocol initialization state of one session.
#[derive(Clone, Copy, PartialEq, Eq, Structural, Debug)]
pub enum State {
    NonInitialized,
    Initialized,
}

/// Device state of one session.
#[derive(Clone, Copy, PartialEq, Eq, Structural, Debug)]
pub enum DeviceState {
    Initialized,
    SearchingForTag,
    TagFound,
    TagRemoved,
    TagMounted,
    Unavailable,
    Finalized,
}

/// Tag identity: the UUID and the tag's protocol and type words.
#[derive(PartialEq, Eq, Debug)]
pub struct TagInfo {
    pub uuid: Vec<u8>,
    pub uuid_length: u8,
    pub protocol: u32,
    pub tag_type: u32,
}

/// Owner registration data: avatar blob, first-write date and name.
#[derive(PartialEq, Eq, Debug)]
pub struct RegisterInfo {
    pub mii_charinfo: Vec<u8>,
    pub first_write_date: Date,
    pub name: String,
    pub font_region: u8,
}

/// Registration data in the driver's private shape; the avatar blob is
/// carried opaquely.
#[derive(PartialEq, Eq, Debug)]
pub struct RegisterInfoPrivate {
    pub mii_store_data: Vec<u8>,
    pub first_write_date: Date,
    pub name: String,
}

/// Usage counters and version of the tag.
#[derive(Clone, Copy, PartialEq, Eq, Structural, Debug)]
pub struct CommonInfo {
    pub last_write_date: Date,
    pub write_counter: u16,
    pub version: u8,
    pub application_area_size: u32,
}

/// The figurine's model identity.
#[derive(Clone, Copy, PartialEq, Eq, Structural, Debug)]
pub struct ModelInfo {
    pub game_character_id: u16,
    pub character_variant: u8,
    pub series: u8,
    pub model_number: u16,
    pub figure_type: u8,
}

/// Console family an application area's owning game belongs to.
#[derive(Clone, Copy, PartialEq, Eq, Structural, Debug)]
pub enum ConsoleFamily {
    Default,
    NintendoSwitch,
    Nintendo3DS,
    NintendoWiiU,
}

/// Admin flag bit: the figurine is initialized.
pub const ADMIN_FLAG_IS_INITIALIZED: u8 = 1;

/// Admin flag bit: an application area exists.
pub const ADMIN_FLAG_HAS_APPLICATION_AREA: u8 = 2;

/// Administrative view of the currently selected application area.
#[derive(Clone, Copy, PartialEq, Eq, Structural, Debug)]
pub struct AdminInfo {
    pub program_id: u64,
    pub access_id: u32,
    pub crc32_change_counter: u32,
    pub flags: u8,
    pub tag_type: u8,
    pub console_family: ConsoleFamily,
}

} // verus!
