//! The iNES cartridge-header vocabulary: the format version probe and the
//! descriptive types a full header parse would fill in.  Reading the file
//! itself belongs to the host; this module works on plain header bytes.

use vstd::prelude::*;
use crate::utils::{get_bit, spec_bit};

verus! {

/// The two revisions of the cartridge container format.
#[allow(non_camel_case_types)]
#[derive(Clone, Copy, Debug, PartialEq, Eq, Structural)]
pub enum iNESVersion {
    /// The original container format.
    Ver1,
    /// The extended revision, a superset of the original.
    Ver2,
}

/// The version a 16-byte header declares: the magic bytes `N`, `E`, `S`,
/// 0x1A open every valid header; within one, a clear bit 2 and a set bit 3
/// of byte 7 mark the extended revision.
pub open spec fn spec_check_ver(header: Seq<u8>) -> Option<iNESVersion>
    recommends
        header.len() == 16,
{
    if header[0] == 0x4E && header[1] == 0x45 && header[2] == 0x53 && header[3] == 0x1A {
        if !spec_bit(header[7], 2) && spec_bit(header[7], 3) {
            Some(iNESVersion::Ver2)
        } else {
            Some(iNESVersion::Ver1)
        }
    } else {
        None
    }
}

/// Probes a 16-byte header for the container-format version; `None` when
/// the magic bytes are absent.
pub fn check_ver(header: [u8; 16]) -> (r: Option<iNESVersion>)
    ensures
        r == spec_check_ver(header@),
{
    if header[0] == 0x4E && header[1] == 0x45 && header[2] == 0x53 && header[3] == 0x1A {
        if !get_bit(header[7], 2) && get_bit(header[7], 3) {
            Some(iNESVersion::Ver2)
        } else {
            Some(iNESVersion::Ver1)
        }
    } else {
        None
    }
}

/// The console family a cartridge targets.
#[derive(Clone, Copy, Debug, PartialEq, Eq, Structural)]
pub enum ConsoleType {
    NES,
    VsSystem,
    Playchoice10,
    DecimalModeFamiclone,
    PlugthroughOrEPSM,
    VT01STN,
    VT02,
    VT03,
    VT32,
    VT369,
    UM6578,
    FamicomNetworkSystem,
}

/// The picture-processor variants of the arcade cabinet line.
#[derive(Clone, Copy, Debug, PartialEq, Eq, Structural)]
pub enum VsPPUType {
    RP2C03B,
    RP2C03G,
    RP2C04_0001,
    RP2C04_0002,
    RP2C04_0003,
    RP2C04_0004,
    RC2C03B,
    RC2C03C,
    RC2C05_01,
    RC2C05_02,
    RC2C05_03,
    RC2C05_04,
    RC2C05_05,
}

/// The cabinet hardware variants of the arcade line.
#[derive(Clone, Copy, Debug, PartialEq, Eq, Structural)]
pub enum VsHardwareType {
    Unisystem,
    UnisystemRBI,
    UnisystemTKO,
    UnisystemSuperXevious,
    UnisystemIceClimber,
    Dual,
    DualRaid,
}

/// The fields a full header parse yields.  Sizes are in bytes; the RAM
/// fields are `None` when the header declares no such memory.
#[allow(non_camel_case_types)]
#[derive(Clone, Copy, Debug, PartialEq, Eq)]
pub struct iNESInfo {
    pub version: iNESVersion,
    pub prg_rom_size: u128,
    pub chr_rom_size: u128,
    /// Hard-wired nametable arrangement: false for horizontal mirroring or
    /// mapper control, true for vertical mirroring.
    pub hardwired_nametable_mirroring: bool,
    pub nonvolatile_memory: bool,
    /// Whether a 512-byte trainer sits between the header and program data.
    pub has_trainer: bool,
    pub hardwired_fourscreen_mode: bool,
    pub console_type: ConsoleType,
    pub prg_ram_size: Option<u16>,
    pub prg_nvram_size: Option<u16>,
    pub chr_ram_size: Option<u16>,
    pub chr_nvram_size: Option<u16>,
}

} // verus!
