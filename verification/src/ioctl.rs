//! Device-control codes: 32-bit values packed from four 8-bit tag bytes.

use vstd::prelude::*;

verus! {

/// The deterministic big-endian-style pack of four tag bytes.
pub open spec fn spec_ioctl(a: u8, b: u8, c: u8, d: u8) -> u32 {
    ((a as u32) << 24) | ((b as u32) << 16) | ((c as u32) << 8) | (d as u32)
}

/// Combines four tag bytes into a device-control code.
pub fn ioctl(a: u8, b: u8, c: u8, d: u8) -> (code: u32)
    ensures
        code == spec_ioctl(a, b, c, d),
{
    ((a as u32) << 24) | ((b as u32) << 16) | ((c as u32) << 8) | (d as u32)
}

/// The pack is lossless: each tag byte can be read back from its own byte
/// of the code, so distinct tag quadruples give distinct codes.
pub proof fn lemma_ioctl_unpack(a: u8, b: u8, c: u8, d: u8)
    by (bit_vector)
    ensures
        spec_ioctl(a, b, c, d) >> 24 == a as u32,
        (spec_ioctl(a, b, c, d) >> 16) & 0xff == b as u32,
        (spec_ioctl(a, b, c, d) >> 8) & 0xff == c as u32,
        spec_ioctl(a, b, c, d) & 0xff == d as u32,
{
}

/// The device-control code that resolves a UART channel's interrupt lines.
pub fn uart(name: char) -> (code: u32)
    requires
        name as u32 <= 0xff,
    ensures
        code == spec_ioctl('u' as u8, 'a' as u8, 'r' as u8, (name as u32) as u8),
{
    let byte: u8 = (name as u32) as u8;
    ioctl('u' as u8, 'a' as u8, 'r' as u8, byte)
}

/// The device-control code that reads a UART channel's control flags.
pub fn uart_get_flags(name: char) -> (code: u32)
    requires
        name as u32 <= 0xff,
    ensures
        code == spec_ioctl('u' as u8, 'a' as u8, 'g' as u8, (name as u32) as u8),
{
    let byte: u8 = (name as u32) as u8;
    ioctl('u' as u8, 'a' as u8, 'g' as u8, byte)
}

/// The device-control code that writes a UART channel's control flags.
pub fn uart_set_flags(name: char) -> (code: u32)
    requires
        name as u32 <= 0xff,
    ensures
        code == spec_ioctl('u' as u8, 'a' as u8, 's' as u8, (name as u32) as u8),
{
    let byte: u8 = (name as u32) as u8;
    ioctl('u' as u8, 'a' as u8, 's' as u8, byte)
}

} // verus!
