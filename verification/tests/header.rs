//! Cartridge-header version probing.

use emu6502::ines::{check_ver, iNESVersion};

fn header_with(byte7: u8) -> [u8; 16] {
    let mut h = [0u8; 16];
    h[0] = 0x4E;
    h[1] = 0x45;
    h[2] = 0x53;
    h[3] = 0x1A;
    h[7] = byte7;
    h
}

#[test]
fn valid_magic_is_version_one() {
    assert_eq!(check_ver(header_with(0x00)), Some(iNESVersion::Ver1));
}

#[test]
fn extended_revision_flag_is_version_two() {
    assert_eq!(check_ver(header_with(0x08)), Some(iNESVersion::Ver2));
}

#[test]
fn set_bit_two_keeps_version_one() {
    assert_eq!(check_ver(header_with(0x0C)), Some(iNESVersion::Ver1));
}

#[test]
fn missing_magic_is_no_version() {
    let mut h = header_with(0x08);
    h[3] = 0x00;
    assert_eq!(check_ver(h), None);
    assert_eq!(check_ver([0u8; 16]), None);
}
