//! What the camera decides on without arithmetic on real numbers.
use crate::input::{Input, KeyCode};
use crate::outside::ivec2;
use crate::vk;
use vstd::prelude::*;

verus! {

/// The number of cascades of the shadow map.
pub const CASCADES: usize = 4;

/// Minus one, as the bits of a single-precision number.
pub const F32_MINUS_ONE: u32 = 0xbf800000;

/// A key counts as one while it is held down.
pub open spec fn held(down: bool) -> int {
    if down {
        1
    } else {
        0
    }
}

/// Where the keys steer to: to the right and forwards. They steer only while the cursor is locked.
pub open spec fn steering(input: Input, cursor_locked: bool) -> Seq<i32> {
    if cursor_locked {
        seq![
            (held(input.pressed().contains(KeyCode::KeyD)) - held(
                input.pressed().contains(KeyCode::KeyA),
            )) as i32,
            (held(input.pressed().contains(KeyCode::KeyW)) - held(
                input.pressed().contains(KeyCode::KeyS),
            )) as i32,
        ]
    } else {
        seq![0, 0]
    }
}

fn key_value(input: &Input, code: KeyCode) -> (r: i32)
    ensures
        r == held(input.pressed().contains(code)),
{
    if input.key_down(code) {
        1
    } else {
        0
    }
}

/// Works out where the keys steer to.
pub fn move_axes(input: &Input, cursor_locked: bool) -> (r: [i32; 2])
    ensures
        r@ == steering(*input, cursor_locked),
        !cursor_locked ==> r@[0] == 0 && r@[1] == 0,
        cursor_locked ==> {
            let (w, s) = (
                input.pressed().contains(KeyCode::KeyW),
                input.pressed().contains(KeyCode::KeyS),
            );
            let (d, a) = (
                input.pressed().contains(KeyCode::KeyD),
                input.pressed().contains(KeyCode::KeyA),
            );
            &&& w && !s ==> r@[1] == 1
            &&& s && !w ==> r@[1] == -1
            &&& w == s ==> r@[1] == 0
            &&& d && !a ==> r@[0] == 1
            &&& a && !d ==> r@[0] == -1
            &&& d == a ==> r@[0] == 0
        },
{
    let axes = ivec2(
        key_value(input, KeyCode::KeyD) - key_value(input, KeyCode::KeyA),
        key_value(input, KeyCode::KeyW) - key_value(input, KeyCode::KeyS),
    );
    if cursor_locked {
        axes
    } else {
        ivec2(0, 0)
    }
}

/// The width and the height that the aspect ratio is made of. A height of nothing counts as one.
pub fn aspect_terms(size: [u32; 2]) -> (r: (u32, u32))
    ensures
        r.0 == size@[0],
        r.1 == if size@[1] == 0 {
            1
        } else {
            size@[1]
        },
        r.1 > 0,
{
    let height: u32 = if size[1] == 0 {
        1
    } else {
        size[1]
    };
    (size[0], height)
}

/// Where a cascade begins and ends, as bits of single-precision numbers.
#[derive(Clone, Copy, Debug, PartialEq, Eq, Structural)]
pub struct CascadeRange {
    pub near: u32,
    pub far: u32,
}

/// The cascades lie between the splits, one after the other.
pub open spec fn ranges_between(splits: Seq<u32>) -> Seq<CascadeRange> {
    Seq::new(CASCADES as nat, |i: int| CascadeRange { near: splits[i], far: splits[i + 1] })
}

/// Lays the cascades out between the splits of the depth range.
pub fn cascade_ranges(splits: &Vec<u32>) -> (r: Vec<CascadeRange>)
    requires
        splits@.len() == CASCADES + 1,
    ensures
        r@ == ranges_between(splits@),
{
    let mut ranges: Vec<CascadeRange> = Vec::new();
    let mut i: usize = 0;
    while i < CASCADES
        invariant
            i <= CASCADES,
            splits@.len() == CASCADES + 1,
            ranges@.len() == i,
            forall|j: int| 0 <= j < i ==> ranges@[j] == ranges_between(splits@)[j],
        decreases CASCADES - i,
    {
        ranges.push(CascadeRange { near: splits[i], far: splits[i + 1] });
        i = i + 1;
    }
    assert(ranges@ =~= ranges_between(splits@));
    ranges
}

/// The cascades cover the whole range between the first and the last split without a gap.
pub proof fn law_cascades_leave_no_gap(splits: Seq<u32>, i: int)
    requires
        splits.len() == CASCADES + 1,
        0 <= i < CASCADES - 1,
    ensures
        ranges_between(splits)[0].near == splits[0],
        ranges_between(splits)[i].far == ranges_between(splits)[i + 1].near,
        ranges_between(splits)[CASCADES - 1].far == splits[CASCADES as int],
{
}

/// A corner of the view, in normalised device coordinates: bit 0 of its number picks the side in
/// x, bit 1 in y, from top to bottom, and bit 2 in depth.
pub open spec fn view_corner(corner: int) -> Seq<u32> {
    seq![
        if corner % 2 == 1 {
            vk::F32_ONE
        } else {
            F32_MINUS_ONE
        },
        if corner / 2 % 2 == 1 {
            F32_MINUS_ONE
        } else {
            vk::F32_ONE
        },
        if corner / 4 % 2 == 1 {
            vk::F32_ONE
        } else {
            vk::F32_ZERO
        },
    ]
}

/// The corners of the view, in normalised device coordinates.
pub fn view_corners() -> (r: [[u32; 3]; 8])
    ensures
        forall|i: int| 0 <= i < 8 ==> (#[trigger] r@[i])@ == view_corner(i),
{
    let r: [[u32; 3]; 8] = [
        [F32_MINUS_ONE, vk::F32_ONE, vk::F32_ZERO],
        [vk::F32_ONE, vk::F32_ONE, vk::F32_ZERO],
        [F32_MINUS_ONE, F32_MINUS_ONE, vk::F32_ZERO],
        [vk::F32_ONE, F32_MINUS_ONE, vk::F32_ZERO],
        [F32_MINUS_ONE, vk::F32_ONE, vk::F32_ONE],
        [vk::F32_ONE, vk::F32_ONE, vk::F32_ONE],
        [F32_MINUS_ONE, F32_MINUS_ONE, vk::F32_ONE],
        [vk::F32_ONE, F32_MINUS_ONE, vk::F32_ONE],
    ];
    assert(r@[0]@ =~= view_corner(0));
    assert(r@[1]@ =~= view_corner(1));
    assert(r@[2]@ =~= view_corner(2));
    assert(r@[3]@ =~= view_corner(3));
    assert(r@[4]@ =~= view_corner(4));
    assert(r@[5]@ =~= view_corner(5));
    assert(r@[6]@ =~= view_corner(6));
    assert(r@[7]@ =~= view_corner(7));
    r
}


/// Opposite keys steer in opposite directions and cancel out, while the cursor is locked: forwards
/// with W, back with S, right with D, left with A, and nowhere with both or neither of two opposite
/// ones. The keys of one axis have no part in the other, and no other key has in either. While the
/// cursor is free no key steers.
pub proof fn law_keys_steer(input: Input, other: Input)
    ensures
        ({
            let axes = steering(input, true);
            let keys = input.pressed();
            let w = keys.contains(KeyCode::KeyW);
            let s = keys.contains(KeyCode::KeyS);
            let d = keys.contains(KeyCode::KeyD);
            let a = keys.contains(KeyCode::KeyA);
            &&& axes.len() == 2
            &&& w && !s ==> axes[1] == 1
            &&& s && !w ==> axes[1] == -1
            &&& w && s ==> axes[1] == 0
            &&& !w && !s ==> axes[1] == 0
            &&& d && !a ==> axes[0] == 1
            &&& a && !d ==> axes[0] == -1
            &&& d && a ==> axes[0] == 0
            &&& !d && !a ==> axes[0] == 0
            &&& w == other.pressed().contains(KeyCode::KeyW) && s == other.pressed().contains(
                KeyCode::KeyS,
            ) ==> axes[1] == steering(other, true)[1]
            &&& d == other.pressed().contains(KeyCode::KeyD) && a == other.pressed().contains(
                KeyCode::KeyA,
            ) ==> axes[0] == steering(other, true)[0]
        }),
        steering(input, false).len() == 2,
        steering(input, false)[0] == 0,
        steering(input, false)[1] == 0,
{
}

/// The corners of the view are those of a box: each has an opposite in x, one in y and one in depth,
/// from which it differs in that direction alone, and each direction goes from one end of the view
/// to the other, left to right, top to bottom and near to far.
pub proof fn law_view_corners_span_box(corner: int)
    requires
        0 <= corner < 8,
    ensures
        view_corner(corner).len() == 3,
        corner == 0 || corner == 2 || corner == 4 || corner == 6 ==> {
            let next = view_corner(corner + 1);
            &&& view_corner(corner)[0] == F32_MINUS_ONE
            &&& next[0] == vk::F32_ONE
            &&& next[1] == view_corner(corner)[1]
            &&& next[2] == view_corner(corner)[2]
        },
        corner == 0 || corner == 1 || corner == 4 || corner == 5 ==> {
            let next = view_corner(corner + 2);
            &&& view_corner(corner)[1] == vk::F32_ONE
            &&& next[1] == F32_MINUS_ONE
            &&& next[0] == view_corner(corner)[0]
            &&& next[2] == view_corner(corner)[2]
        },
        corner < 4 ==> {
            let next = view_corner(corner + 4);
            &&& view_corner(corner)[2] == vk::F32_ZERO
            &&& next[2] == vk::F32_ONE
            &&& next[0] == view_corner(corner)[0]
            &&& next[1] == view_corner(corner)[1]
        },
{
}

} // verus!
