//! The window icon: a blue chip with gold pins and a green centre, drawn on
//! a transparent square.

use vstd::prelude::*;

verus! {

/// Width and height of the icon in pixels.
pub const ICON_SIZE: usize = 64;

/// Whether `a <= v <= b`.
pub open spec fn within(v: int, a: int, b: int) -> bool {
    a <= v <= b
}

/// A gold pin covers the pixel: five pins of three pixels with a gap of two
/// on each side of the body, each six pixels long.
pub open spec fn on_pin(x: int, y: int) -> bool {
    ||| (within(y, 12, 17) || within(y, 46, 51)) && within(x, 23, 41) && (x - 23) % 5 < 3
    ||| (within(x, 12, 17) || within(x, 46, 51)) && within(y, 23, 41) && (y - 23) % 5 < 3
}

/// Colour of the pixel at column `x`, row `y`, as red, green, blue, alpha:
/// the green centre over the blue body, gold pins around it, the rest
/// transparent.
pub open spec fn icon_pixel(x: int, y: int) -> (u8, u8, u8, u8) {
    if within(x, 30, 33) && within(y, 30, 33) {
        (0x2e, 0xa0, 0x43, 255)
    } else if on_pin(x, y) {
        (0xd4, 0xaf, 0x37, 255)
    } else if within(x, 18, 45) && within(y, 18, 45) {
        (0x1f, 0x6f, 0xc3, 255)
    } else {
        (0, 0, 0, 0)
    }
}

/// Byte `i` of the icon's pixels, row by row, four bytes per pixel.
pub open spec fn icon_byte(i: int) -> u8 {
    let p = i / 4;
    let c = icon_pixel(p % ICON_SIZE as int, p / ICON_SIZE as int);
    let k = i % 4;
    if k == 0 {
        c.0
    } else if k == 1 {
        c.1
    } else if k == 2 {
        c.2
    } else {
        c.3
    }
}

/// Executable form of [`icon_pixel`].
fn pixel(x: u64, y: u64) -> (c: (u8, u8, u8, u8))
    ensures
        c == icon_pixel(x as int, y as int),
{
    let pin = ((12 <= y && y <= 17) || (46 <= y && y <= 51)) && (23 <= x && x <= 41) && (x - 23) % 5
        < 3 || ((12 <= x && x <= 17) || (46 <= x && x <= 51)) && (23 <= y && y <= 41) && (y - 23) % 5
        < 3;
    if 30 <= x && x <= 33 && 30 <= y && y <= 33 {
        (0x2e, 0xa0, 0x43, 255)
    } else if pin {
        (0xd4, 0xaf, 0x37, 255)
    } else if 18 <= x && x <= 45 && 18 <= y && y <= 45 {
        (0x1f, 0x6f, 0xc3, 255)
    } else {
        (0, 0, 0, 0)
    }
}

/// The icon's pixels as RGBA bytes, row by row.
pub fn icon_rgba() -> (v: Vec<u8>)
    ensures
        v@.len() == ICON_SIZE * ICON_SIZE * 4,
        forall|i: int| 0 <= i < v@.len() ==> #[trigger] v@[i] == icon_byte(i),
{
    let total: u64 = (ICON_SIZE * ICON_SIZE * 4) as u64;
    let mut v: Vec<u8> = Vec::new();
    let mut i: u64 = 0;
    while i < total
        invariant
            total == ICON_SIZE * ICON_SIZE * 4,
            i <= total,
            v@.len() == i,
            forall|j: int| 0 <= j < i ==> #[trigger] v@[j] == icon_byte(j),
        decreases total - i,
    {
        let p = i / 4;
        let c = pixel(p % 64, p / 64);
        let k = i % 4;
        let b = if k == 0 {
            c.0
        } else if k == 1 {
            c.1
        } else if k == 2 {
            c.2
        } else {
            c.3
        };
        v.push(b);
        i = i + 1;
    }
    v
}

} // verus!
