use vstd::prelude::*;

verus! {

/// Message id of the window-resized notification.
pub const WM_SIZE: u32 = 0x0005;

/// One captured window message: its id and its packed parameter.
#[derive(Clone, Copy, Debug, PartialEq, Eq)]
pub struct PipelineMessage(pub u32, pub isize);

/// The low 16 bits of a packed parameter.
pub open spec fn low_word(lparam: isize) -> u16 {
    (lparam & 0xFFFF) as u16
}

/// Bits 16 to 31 of a packed parameter.
pub open spec fn high_word(lparam: isize) -> u16 {
    ((lparam >> 16) & 0xFFFF) as u16
}

/// A width and a height packed into one parameter, width in the low half.
pub open spec fn packed(width: u16, height: u16) -> isize {
    (width as int + 65536 * (height as int)) as isize
}

/// Reads the low half of a packed parameter.
pub fn loword(lparam: isize) -> (r: u16)
    ensures
        r == low_word(lparam),
{
    (lparam & 0xFFFF) as u16
}

/// Reads the high half of a packed parameter.
pub fn hiword(lparam: isize) -> (r: u16)
    ensures
        r == high_word(lparam),
{
    ((lparam >> 16) & 0xFFFF) as u16
}

/// Packs a width and a height into one parameter, as the system does for a
/// resize message.
pub fn pack(width: u16, height: u16) -> (r: isize)
    ensures
        r == packed(width, height),
        low_word(r) == width,
        high_word(r) == height,
{
    let r: isize = (width as isize) | ((height as isize) << 16);
    assert(r == packed(width, height) && low_word(r) == width && high_word(r) == height) by (bit_vector)
        requires
            r == (width as isize) | ((height as isize) << 16),
    ;
    r
}

} // verus!
