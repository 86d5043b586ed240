//! Colors as the native dialogs hold them.

use vstd::prelude::*;

verus! {

/// A color in a dialog's 0x00BBGGRR form.
pub open spec fn colorref(rgb: [u8; 3]) -> int {
    rgb@[0] + 0x100 * rgb@[1] + 0x10000 * rgb@[2]
}

/// The color that a dialog preselects: white when none is given.
pub fn pack(initial: Option<[u8; 3]>) -> (c: u32)
    ensures
        c == (match initial {
            Some(rgb) => colorref(rgb),
            None => 0xFFFFFF,
        }),
{
    match initial {
        Some(rgb) => rgb[0] as u32 + 0x100 * rgb[1] as u32 + 0x10000 * rgb[2] as u32,
        None => 0xFFFFFF,
    }
}

/// The color that a number holds in the dialog's form.
pub open spec fn color_of(c: int) -> Seq<u8> {
    seq![(c % 0x100) as u8, ((c / 0x100) % 0x100) as u8, ((c / 0x10000) % 0x100) as u8]
}

/// The color that a dialog returned.
pub fn unpack(c: u32) -> (rgb: [u8; 3])
    ensures
        rgb@ == color_of(c as int),
        rgb@[0] == c % 0x100,
        rgb@[1] == (c / 0x100) % 0x100,
        rgb@[2] == (c / 0x10000) % 0x100,
{
    let rgb: [u8; 3] = [
        (c % 0x100) as u8,
        ((c / 0x100) % 0x100) as u8,
        ((c / 0x10000) % 0x100) as u8,
    ];
    assert(rgb@ =~= color_of(c as int));
    rgb
}

/// What the picker gives back: nothing when it was cancelled.
pub fn pick_custom_color(accepted: bool, result: u32) -> (picked: Option<[u8; 3]>)
    ensures
        picked is Some <==> accepted,
        picked matches Some(rgb) ==> {
            &&& rgb@[0] == result % 0x100
            &&& rgb@[1] == (result / 0x100) % 0x100
            &&& rgb@[2] == (result / 0x10000) % 0x100
        },
{
    if accepted {
        Some(unpack(result))
    } else {
        None
    }
}

/// A color survives the dialog's form.
pub proof fn colors_survive_packing(rgb: [u8; 3])
    ensures
        colorref(rgb) % 0x100 == rgb@[0],
        (colorref(rgb) / 0x100) % 0x100 == rgb@[1],
        (colorref(rgb) / 0x10000) % 0x100 == rgb@[2],
        0 <= colorref(rgb) <= 0xFFFFFF,
{
}

/// The dialog's number holds red in its lowest byte, green above it and blue above
/// that; whatever stands higher is dropped.
pub proof fn numbers_hold_the_color(c: int)
    requires
        c >= 0,
    ensures
        color_of(c).len() == 3,
        color_of(c)[0] + 0x100 * color_of(c)[1] + 0x10000 * color_of(c)[2] == c % 0x1000000,
{
}

/// A color that goes through the dialog unchanged comes back as it was.
pub proof fn colors_come_back(rgb: [u8; 3])
    ensures
        color_of(colorref(rgb)) == rgb@,
{
    colors_survive_packing(rgb);
    assert(color_of(colorref(rgb)) =~= rgb@);
}

} // verus!
