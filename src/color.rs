use vstd::prelude::*;

verus! {

/// The 32-bit cell that one RGB565 pixel becomes: each channel is shifted up
/// to eight bits without replicating its top bits, and the top byte is zero.
pub open spec fn rgb565_to_cell(p: u16) -> u32 {
    let red = ((p >> 11u16) & 0x1Fu16) as u32;
    let green = ((p >> 5u16) & 0x3Fu16) as u32;
    let blue = (p & 0x1Fu16) as u32;
    ((red << 3u32) << 16u32) | ((green << 2u32) << 8u32) | (blue << 3u32)
}

/// Converts one packed RGB565 pixel into a packed 0x00RRGGBB cell.
pub fn convert(p: u16) -> (r: u32)
    ensures
        r == rgb565_to_cell(p),
{
    let red = ((p >> 11u16) & 0x1Fu16) as u32;
    let green = ((p >> 5u16) & 0x3Fu16) as u32;
    let blue = (p & 0x1Fu16) as u32;
    ((red << 3u32) << 16u32) | ((green << 2u32) << 8u32) | (blue << 3u32)
}

/// For every RGB565 pixel, the converted cell has a zero top byte, and its red,
/// green and blue bytes are the 5-, 6- and 5-bit source fields shifted left by
/// 3, 2 and 3 bits, with no saturation.
pub proof fn lemma_convert_fields(p: u16)
    ensures
        rgb565_to_cell(p) >> 24u32 == 0,
        (rgb565_to_cell(p) >> 16u32) & 0xFFu32 == (((p >> 11u16) & 0x1Fu16) as u32) << 3u32,
        (rgb565_to_cell(p) >> 8u32) & 0xFFu32 == (((p >> 5u16) & 0x3Fu16) as u32) << 2u32,
        rgb565_to_cell(p) & 0xFFu32 == ((p & 0x1Fu16) as u32) << 3u32,
{
    let red = ((p >> 11u16) & 0x1Fu16) as u32;
    let green = ((p >> 5u16) & 0x3Fu16) as u32;
    let blue = (p & 0x1Fu16) as u32;
    assert(red < 32 && green < 64 && blue < 32) by (bit_vector)
        requires
            red == ((p >> 11u16) & 0x1Fu16) as u32,
            green == ((p >> 5u16) & 0x3Fu16) as u32,
            blue == (p & 0x1Fu16) as u32,
    ;
    let c = ((red << 3u32) << 16u32) | ((green << 2u32) << 8u32) | (blue << 3u32);
    assert(c >> 24u32 == 0 && (c >> 16u32) & 0xFFu32 == red << 3u32 && (c >> 8u32) & 0xFFu32
        == green << 2u32 && c & 0xFFu32 == blue << 3u32) by (bit_vector)
        requires
            red < 32,
            green < 64,
            blue < 32,
            c == ((red << 3u32) << 16u32) | ((green << 2u32) << 8u32) | (blue << 3u32),
    ;
}

} // verus!
