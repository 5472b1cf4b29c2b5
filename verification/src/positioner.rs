//! Encoding of popup placement into the wire values the shell
//! protocol's positioner object takes: an anchor rectangle in integer
//! coordinates, one anchor and one gravity enumeration value, and a
//! constraint-adjustment bitmask.
//!
//! The enumeration and bit values are the ones the protocol defines;
//! the mapping from the abstract direction and hint vocabulary onto
//! them is total and injective.

use vstd::prelude::*;

use crate::attributes::{
    AnchorDirection, AnchorHints, PopupAttributes, HINT_FLIP_X, HINT_FLIP_Y, HINT_RESIZE_X,
    HINT_RESIZE_Y, HINT_SLIDE_X, HINT_SLIDE_Y,
};
use crate::geometry::SCALE_ONE;

verus! {

/// Protocol anchor value: no edge, the center of the anchor rectangle.
pub const XDG_ANCHOR_NONE: u32 = 0;

/// Protocol anchor value: the top edge.
pub const XDG_ANCHOR_TOP: u32 = 1;

/// Protocol anchor value: the bottom edge.
pub const XDG_ANCHOR_BOTTOM: u32 = 2;

/// Protocol anchor value: the left edge.
pub const XDG_ANCHOR_LEFT: u32 = 3;

/// Protocol anchor value: the right edge.
pub const XDG_ANCHOR_RIGHT: u32 = 4;

/// Protocol anchor value: the top-left corner.
pub const XDG_ANCHOR_TOP_LEFT: u32 = 5;

/// Protocol anchor value: the bottom-left corner.
pub const XDG_ANCHOR_BOTTOM_LEFT: u32 = 6;

/// Protocol anchor value: the top-right corner.
pub const XDG_ANCHOR_TOP_RIGHT: u32 = 7;

/// Protocol anchor value: the bottom-right corner.
pub const XDG_ANCHOR_BOTTOM_RIGHT: u32 = 8;

/// Protocol gravity value: centered on the anchor point.
pub const XDG_GRAVITY_NONE: u32 = 0;

/// Protocol gravity value: towards the top.
pub const XDG_GRAVITY_TOP: u32 = 1;

/// Protocol gravity value: towards the bottom.
pub const XDG_GRAVITY_BOTTOM: u32 = 2;

/// Protocol gravity value: towards the left.
pub const XDG_GRAVITY_LEFT: u32 = 3;

/// Protocol gravity value: towards the right.
pub const XDG_GRAVITY_RIGHT: u32 = 4;

/// Protocol gravity value: towards the top-left.
pub const XDG_GRAVITY_TOP_LEFT: u32 = 5;

/// Protocol gravity value: towards the bottom-left.
pub const XDG_GRAVITY_BOTTOM_LEFT: u32 = 6;

/// Protocol gravity value: towards the top-right.
pub const XDG_GRAVITY_TOP_RIGHT: u32 = 7;

/// Protocol gravity value: towards the bottom-right.
pub const XDG_GRAVITY_BOTTOM_RIGHT: u32 = 8;

/// Protocol constraint-adjustment bit: slide on the X axis.
pub const XDG_CONSTRAINT_SLIDE_X: u32 = 1;

/// Protocol constraint-adjustment bit: slide on the Y axis.
pub const XDG_CONSTRAINT_SLIDE_Y: u32 = 2;

/// Protocol constraint-adjustment bit: flip on the X axis.
pub const XDG_CONSTRAINT_FLIP_X: u32 = 4;

/// Protocol constraint-adjustment bit: flip on the Y axis.
pub const XDG_CONSTRAINT_FLIP_Y: u32 = 8;

/// Protocol constraint-adjustment bit: resize on the X axis.
pub const XDG_CONSTRAINT_RESIZE_X: u32 = 16;

/// Protocol constraint-adjustment bit: resize on the Y axis.
pub const XDG_CONSTRAINT_RESIZE_Y: u32 = 32;

/// The protocol anchor value a compass direction maps to.
pub open spec fn spec_anchor_wire(dir: AnchorDirection) -> u32 {
    match dir {
        AnchorDirection::Center => XDG_ANCHOR_NONE,
        AnchorDirection::North => XDG_ANCHOR_TOP,
        AnchorDirection::Northeast => XDG_ANCHOR_TOP_RIGHT,
        AnchorDirection::East => XDG_ANCHOR_RIGHT,
        AnchorDirection::Southeast => XDG_ANCHOR_BOTTOM_RIGHT,
        AnchorDirection::South => XDG_ANCHOR_BOTTOM,
        AnchorDirection::Southwest => XDG_ANCHOR_BOTTOM_LEFT,
        AnchorDirection::West => XDG_ANCHOR_LEFT,
        AnchorDirection::Northwest => XDG_ANCHOR_TOP_LEFT,
    }
}

/// The protocol gravity value a compass direction maps to. The gravity
/// vocabulary shares the anchor vocabulary's nine directions but is a
/// distinct protocol field.
pub open spec fn spec_gravity_wire(dir: AnchorDirection) -> u32 {
    match dir {
        AnchorDirection::Center => XDG_GRAVITY_NONE,
        AnchorDirection::North => XDG_GRAVITY_TOP,
        AnchorDirection::Northeast => XDG_GRAVITY_TOP_RIGHT,
        AnchorDirection::East => XDG_GRAVITY_RIGHT,
        AnchorDirection::Southeast => XDG_GRAVITY_BOTTOM_RIGHT,
        AnchorDirection::South => XDG_GRAVITY_BOTTOM,
        AnchorDirection::Southwest => XDG_GRAVITY_BOTTOM_LEFT,
        AnchorDirection::West => XDG_GRAVITY_LEFT,
        AnchorDirection::Northwest => XDG_GRAVITY_TOP_LEFT,
    }
}

/// The constraint-adjustment bitmask a hint set maps to: the bitwise OR
/// of the per-bit mappings of the set's members. A hint set with no
/// members maps to zero, the protocol's "no adjustment" value.
pub open spec fn spec_constraints_wire(bits: u32) -> u32 {
    (if bits & HINT_SLIDE_X != 0 {
        XDG_CONSTRAINT_SLIDE_X
    } else {
        0
    }) | (if bits & HINT_SLIDE_Y != 0 {
        XDG_CONSTRAINT_SLIDE_Y
    } else {
        0
    }) | (if bits & HINT_FLIP_X != 0 {
        XDG_CONSTRAINT_FLIP_X
    } else {
        0
    }) | (if bits & HINT_FLIP_Y != 0 {
        XDG_CONSTRAINT_FLIP_Y
    } else {
        0
    }) | (if bits & HINT_RESIZE_X != 0 {
        XDG_CONSTRAINT_RESIZE_X
    } else {
        0
    }) | (if bits & HINT_RESIZE_Y != 0 {
        XDG_CONSTRAINT_RESIZE_Y
    } else {
        0
    })
}

/// Translates a compass direction to the protocol's anchor value.
pub fn to_xdg_positioner_anchor(dir: AnchorDirection) -> (r: u32)
    ensures
        r == spec_anchor_wire(dir),
{
    match dir {
        AnchorDirection::Center => XDG_ANCHOR_NONE,
        AnchorDirection::North => XDG_ANCHOR_TOP,
        AnchorDirection::Northeast => XDG_ANCHOR_TOP_RIGHT,
        AnchorDirection::East => XDG_ANCHOR_RIGHT,
        AnchorDirection::Southeast => XDG_ANCHOR_BOTTOM_RIGHT,
        AnchorDirection::South => XDG_ANCHOR_BOTTOM,
        AnchorDirection::Southwest => XDG_ANCHOR_BOTTOM_LEFT,
        AnchorDirection::West => XDG_ANCHOR_LEFT,
        AnchorDirection::Northwest => XDG_ANCHOR_TOP_LEFT,
    }
}

/// Translates a compass direction to the protocol's gravity value.
pub fn to_xdg_positioner_gravity(dir: AnchorDirection) -> (r: u32)
    ensures
        r == spec_gravity_wire(dir),
{
    match dir {
        AnchorDirection::Center => XDG_GRAVITY_NONE,
        AnchorDirection::North => XDG_GRAVITY_TOP,
        AnchorDirection::Northeast => XDG_GRAVITY_TOP_RIGHT,
        AnchorDirection::East => XDG_GRAVITY_RIGHT,
        AnchorDirection::Southeast => XDG_GRAVITY_BOTTOM_RIGHT,
        AnchorDirection::South => XDG_GRAVITY_BOTTOM,
        AnchorDirection::Southwest => XDG_GRAVITY_BOTTOM_LEFT,
        AnchorDirection::West => XDG_GRAVITY_LEFT,
        AnchorDirection::Northwest => XDG_GRAVITY_TOP_LEFT,
    }
}

/// Translates a hint set to the protocol's constraint-adjustment
/// bitmask.
pub fn to_xdg_constraints(flags: AnchorHints) -> (r: u32)
    ensures
        r == spec_constraints_wire(flags.bits),
{
    let slide_x: u32 = if flags.bits & HINT_SLIDE_X != 0 {
        XDG_CONSTRAINT_SLIDE_X
    } else {
        0
    };
    let slide_y: u32 = if flags.bits & HINT_SLIDE_Y != 0 {
        XDG_CONSTRAINT_SLIDE_Y
    } else {
        0
    };
    let flip_x: u32 = if flags.bits & HINT_FLIP_X != 0 {
        XDG_CONSTRAINT_FLIP_X
    } else {
        0
    };
    let flip_y: u32 = if flags.bits & HINT_FLIP_Y != 0 {
        XDG_CONSTRAINT_FLIP_Y
    } else {
        0
    };
    let resize_x: u32 = if flags.bits & HINT_RESIZE_X != 0 {
        XDG_CONSTRAINT_RESIZE_X
    } else {
        0
    };
    let resize_y: u32 = if flags.bits & HINT_RESIZE_Y != 0 {
        XDG_CONSTRAINT_RESIZE_Y
    } else {
        0
    };
    slide_x | slide_y | flip_x | flip_y | resize_x | resize_y
}

/// The anchor mapping sends distinct directions to distinct protocol
/// values: no two directions collide, and every direction is covered.
pub proof fn lemma_anchor_mapping_injective(a: AnchorDirection, b: AnchorDirection)
    ensures
        spec_anchor_wire(a) == spec_anchor_wire(b) ==> a == b,
{
}

/// The gravity mapping sends distinct directions to distinct protocol
/// values: no two directions collide, and every direction is covered.
pub proof fn lemma_gravity_mapping_injective(a: AnchorDirection, b: AnchorDirection)
    ensures
        spec_gravity_wire(a) == spec_gravity_wire(b) ==> a == b,
{
}

/// The hint mapping is linear: the mask of a union of hint sets is the
/// bitwise OR of the masks of the two sets, and the empty set maps to
/// the protocol's "no adjustment" value, zero.
pub proof fn lemma_constraints_linear(a: u32, b: u32)
    ensures
        spec_constraints_wire(a | b) == spec_constraints_wire(a) | spec_constraints_wire(b),
        spec_constraints_wire(0) == 0,
{
    assert(((if (a | b) & 4u32 != 0 {
        1u32
    } else {
        0u32
    }) | (if (a | b) & 8u32 != 0 {
        2u32
    } else {
        0u32
    }) | (if (a | b) & 1u32 != 0 {
        4u32
    } else {
        0u32
    }) | (if (a | b) & 2u32 != 0 {
        8u32
    } else {
        0u32
    }) | (if (a | b) & 16u32 != 0 {
        16u32
    } else {
        0u32
    }) | (if (a | b) & 32u32 != 0 {
        32u32
    } else {
        0u32
    })) == (((if a & 4u32 != 0 {
        1u32
    } else {
        0u32
    }) | (if a & 8u32 != 0 {
        2u32
    } else {
        0u32
    }) | (if a & 1u32 != 0 {
        4u32
    } else {
        0u32
    }) | (if a & 2u32 != 0 {
        8u32
    } else {
        0u32
    }) | (if a & 16u32 != 0 {
        16u32
    } else {
        0u32
    }) | (if a & 32u32 != 0 {
        32u32
    } else {
        0u32
    })) | ((if b & 4u32 != 0 {
        1u32
    } else {
        0u32
    }) | (if b & 8u32 != 0 {
        2u32
    } else {
        0u32
    }) | (if b & 1u32 != 0 {
        4u32
    } else {
        0u32
    }) | (if b & 2u32 != 0 {
        8u32
    } else {
        0u32
    }) | (if b & 16u32 != 0 {
        16u32
    } else {
        0u32
    }) | (if b & 32u32 != 0 {
        32u32
    } else {
        0u32
    })))) by (bit_vector);
    assert(spec_constraints_wire(a | b) == spec_constraints_wire(a) | spec_constraints_wire(b));
    assert((0u32 | 0u32 | 0u32 | 0u32 | 0u32 | 0u32) == 0u32) by (bit_vector);
    assert(0u32 & 4u32 == 0 && 0u32 & 8u32 == 0 && 0u32 & 1u32 == 0 && 0u32 & 2u32 == 0 && 0u32
        & 16u32 == 0 && 0u32 & 32u32 == 0) by (bit_vector);
}

/// On the six-bit hint domain the hint mapping is injective: two hint
/// sets with the same constraint mask are the same set.
pub proof fn lemma_constraints_injective(a: u32, b: u32)
    requires
        a < 64,
        b < 64,
    ensures
        spec_constraints_wire(a) == spec_constraints_wire(b) ==> a == b,
{
    assert((((if a & 4u32 != 0 {
        1u32
    } else {
        0u32
    }) | (if a & 8u32 != 0 {
        2u32
    } else {
        0u32
    }) | (if a & 1u32 != 0 {
        4u32
    } else {
        0u32
    }) | (if a & 2u32 != 0 {
        8u32
    } else {
        0u32
    }) | (if a & 16u32 != 0 {
        16u32
    } else {
        0u32
    }) | (if a & 32u32 != 0 {
        32u32
    } else {
        0u32
    })) == ((if b & 4u32 != 0 {
        1u32
    } else {
        0u32
    }) | (if b & 8u32 != 0 {
        2u32
    } else {
        0u32
    }) | (if b & 1u32 != 0 {
        4u32
    } else {
        0u32
    }) | (if b & 2u32 != 0 {
        8u32
    } else {
        0u32
    }) | (if b & 16u32 != 0 {
        16u32
    } else {
        0u32
    }) | (if b & 32u32 != 0 {
        32u32
    } else {
        0u32
    }))) ==> a == b) by (bit_vector)
        requires
            a < 64,
            b < 64,
    ;
}

/// A `u32` dimension clamped into the non-negative range of `i32`, as
/// the positioner's integer fields require.
pub open spec fn spec_saturate_i32(v: u32) -> i32 {
    if v > i32::MAX as u32 {
        i32::MAX
    } else {
        v as i32
    }
}

/// Clamps a `u32` dimension into the non-negative range of `i32`.
pub fn saturate_i32(v: u32) -> (r: i32)
    ensures
        r == spec_saturate_i32(v),
{
    if v > i32::MAX as u32 {
        i32::MAX
    } else {
        v as i32
    }
}

/// The wire state a positioner object is configured with before a popup
/// is created from it: the anchor rectangle and popup size in integer
/// coordinates at unit scale, the anchor and gravity enumeration
/// values, and the constraint-adjustment bitmask.
#[derive(Debug, Clone, Copy, PartialEq, Eq, Structural)]
pub struct PositionerConfig {
    pub anchor_rect_x: i32,
    pub anchor_rect_y: i32,
    pub anchor_rect_width: i32,
    pub anchor_rect_height: i32,
    pub width: i32,
    pub height: i32,
    pub anchor: u32,
    pub gravity: u32,
    pub constraint_adjustment: u32,
}

/// The wire state a popup's attributes encode to.
pub open spec fn spec_encode_positioner(attributes: PopupAttributes) -> PositionerConfig {
    PositionerConfig {
        anchor_rect_x: attributes.anchor_rect.0.spec_xy().0,
        anchor_rect_y: attributes.anchor_rect.0.spec_xy().1,
        anchor_rect_width: spec_saturate_i32(
            attributes.anchor_rect.1.spec_to_logical(SCALE_ONE).width,
        ),
        anchor_rect_height: spec_saturate_i32(
            attributes.anchor_rect.1.spec_to_logical(SCALE_ONE).height,
        ),
        width: spec_saturate_i32(attributes.inner_size.spec_to_logical(SCALE_ONE).width),
        height: spec_saturate_i32(attributes.inner_size.spec_to_logical(SCALE_ONE).height),
        anchor: spec_anchor_wire(attributes.rect_anchor),
        gravity: spec_gravity_wire(attributes.surface_anchor),
        constraint_adjustment: spec_constraints_wire(attributes.anchor_hints.bits),
    }
}

/// Deterministically translates popup attributes into the wire state
/// the positioner protocol object takes. All dimensions are taken at
/// unit scale: rescaling to the output's real scale is the configure
/// handshake's job, not the encoder's.
pub fn encode_positioner(attributes: &PopupAttributes) -> (c: PositionerConfig)
    ensures
        c == spec_encode_positioner(*attributes),
{
    let (ax, ay) = attributes.anchor_rect.0.xy();
    let anchor_size = attributes.anchor_rect.1.to_logical(SCALE_ONE);
    let inner = attributes.inner_size.to_logical(SCALE_ONE);
    PositionerConfig {
        anchor_rect_x: ax,
        anchor_rect_y: ay,
        anchor_rect_width: saturate_i32(anchor_size.width),
        anchor_rect_height: saturate_i32(anchor_size.height),
        width: saturate_i32(inner.width),
        height: saturate_i32(inner.height),
        anchor: to_xdg_positioner_anchor(attributes.rect_anchor),
        gravity: to_xdg_positioner_gravity(attributes.surface_anchor),
        constraint_adjustment: to_xdg_constraints(attributes.anchor_hints),
    }
}

} // verus!
