//! The direction and hint mapping tables, held against the protocol's
//! own generated constants.

use wayland_protocols::xdg::shell::client::xdg_positioner::{Anchor, ConstraintAdjustment, Gravity};
use waywin::attributes::{
    AnchorDirection, AnchorHints, HINT_FLIP_X, HINT_FLIP_Y, HINT_RESIZE_X, HINT_RESIZE_Y,
    HINT_SLIDE_X, HINT_SLIDE_Y,
};
use waywin::positioner::{
    to_xdg_constraints, to_xdg_positioner_anchor, to_xdg_positioner_gravity,
};

const ALL_DIRECTIONS: [AnchorDirection; 9] = [
    AnchorDirection::Center,
    AnchorDirection::North,
    AnchorDirection::Northeast,
    AnchorDirection::East,
    AnchorDirection::Southeast,
    AnchorDirection::South,
    AnchorDirection::Southwest,
    AnchorDirection::West,
    AnchorDirection::Northwest,
];

#[test]
fn anchor_mapping_matches_protocol_constants() {
    assert_eq!(to_xdg_positioner_anchor(AnchorDirection::Center), u32::from(Anchor::None));
    assert_eq!(to_xdg_positioner_anchor(AnchorDirection::North), u32::from(Anchor::Top));
    assert_eq!(to_xdg_positioner_anchor(AnchorDirection::Northeast), u32::from(Anchor::TopRight));
    assert_eq!(to_xdg_positioner_anchor(AnchorDirection::East), u32::from(Anchor::Right));
    assert_eq!(
        to_xdg_positioner_anchor(AnchorDirection::Southeast),
        u32::from(Anchor::BottomRight)
    );
    assert_eq!(to_xdg_positioner_anchor(AnchorDirection::South), u32::from(Anchor::Bottom));
    assert_eq!(
        to_xdg_positioner_anchor(AnchorDirection::Southwest),
        u32::from(Anchor::BottomLeft)
    );
    assert_eq!(to_xdg_positioner_anchor(AnchorDirection::West), u32::from(Anchor::Left));
    assert_eq!(to_xdg_positioner_anchor(AnchorDirection::Northwest), u32::from(Anchor::TopLeft));
}

#[test]
fn gravity_mapping_matches_protocol_constants() {
    assert_eq!(to_xdg_positioner_gravity(AnchorDirection::Center), u32::from(Gravity::None));
    assert_eq!(to_xdg_positioner_gravity(AnchorDirection::North), u32::from(Gravity::Top));
    assert_eq!(
        to_xdg_positioner_gravity(AnchorDirection::Northeast),
        u32::from(Gravity::TopRight)
    );
    assert_eq!(to_xdg_positioner_gravity(AnchorDirection::East), u32::from(Gravity::Right));
    assert_eq!(
        to_xdg_positioner_gravity(AnchorDirection::Southeast),
        u32::from(Gravity::BottomRight)
    );
    assert_eq!(to_xdg_positioner_gravity(AnchorDirection::South), u32::from(Gravity::Bottom));
    assert_eq!(
        to_xdg_positioner_gravity(AnchorDirection::Southwest),
        u32::from(Gravity::BottomLeft)
    );
    assert_eq!(to_xdg_positioner_gravity(AnchorDirection::West), u32::from(Gravity::Left));
    assert_eq!(to_xdg_positioner_gravity(AnchorDirection::Northwest), u32::from(Gravity::TopLeft));
}

#[test]
fn anchor_mapping_is_injective() {
    for (i, a) in ALL_DIRECTIONS.iter().enumerate() {
        for (j, b) in ALL_DIRECTIONS.iter().enumerate() {
            if i != j {
                assert_ne!(to_xdg_positioner_anchor(*a), to_xdg_positioner_anchor(*b));
            }
        }
    }
}

#[test]
fn gravity_mapping_is_injective() {
    for (i, a) in ALL_DIRECTIONS.iter().enumerate() {
        for (j, b) in ALL_DIRECTIONS.iter().enumerate() {
            if i != j {
                assert_ne!(to_xdg_positioner_gravity(*a), to_xdg_positioner_gravity(*b));
            }
        }
    }
}

#[test]
fn hint_singletons_match_protocol_bits() {
    assert_eq!(to_xdg_constraints(AnchorHints::none()), ConstraintAdjustment::None.bits());
    assert_eq!(
        to_xdg_constraints(AnchorHints::from_bits(HINT_SLIDE_X)),
        ConstraintAdjustment::SlideX.bits()
    );
    assert_eq!(
        to_xdg_constraints(AnchorHints::from_bits(HINT_SLIDE_Y)),
        ConstraintAdjustment::SlideY.bits()
    );
    assert_eq!(
        to_xdg_constraints(AnchorHints::from_bits(HINT_FLIP_X)),
        ConstraintAdjustment::FlipX.bits()
    );
    assert_eq!(
        to_xdg_constraints(AnchorHints::from_bits(HINT_FLIP_Y)),
        ConstraintAdjustment::FlipY.bits()
    );
    assert_eq!(
        to_xdg_constraints(AnchorHints::from_bits(HINT_RESIZE_X)),
        ConstraintAdjustment::ResizeX.bits()
    );
    assert_eq!(
        to_xdg_constraints(AnchorHints::from_bits(HINT_RESIZE_Y)),
        ConstraintAdjustment::ResizeY.bits()
    );
}

#[test]
fn hint_mapping_is_linear_over_all_subsets() {
    let hint_bits = [
        HINT_FLIP_X,
        HINT_FLIP_Y,
        HINT_SLIDE_X,
        HINT_SLIDE_Y,
        HINT_RESIZE_X,
        HINT_RESIZE_Y,
    ];
    for subset in 0u32..64 {
        let mut bits = 0u32;
        let mut expected = 0u32;
        for (pos, hint) in hint_bits.iter().enumerate() {
            if subset & (1 << pos) != 0 {
                bits |= hint;
                expected |= to_xdg_constraints(AnchorHints::from_bits(*hint));
            }
        }
        assert_eq!(to_xdg_constraints(AnchorHints::from_bits(bits)), expected);
    }
}

#[test]
fn hint_union_maps_to_bit_or() {
    let a = AnchorHints::from_bits(HINT_FLIP_X | HINT_SLIDE_Y);
    let b = AnchorHints::from_bits(HINT_RESIZE_X | HINT_SLIDE_Y);
    assert_eq!(
        to_xdg_constraints(a.union(b)),
        to_xdg_constraints(a) | to_xdg_constraints(b)
    );
    assert_eq!(
        to_xdg_constraints(a.union(b)),
        ConstraintAdjustment::FlipX.bits()
            | ConstraintAdjustment::SlideY.bits()
            | ConstraintAdjustment::ResizeX.bits()
    );
}

#[test]
fn hint_set_operations() {
    let a = AnchorHints::from_bits(HINT_FLIP_X | HINT_SLIDE_Y);
    assert!(a.contains(AnchorHints::from_bits(HINT_FLIP_X)));
    assert!(a.contains(AnchorHints::from_bits(HINT_FLIP_X | HINT_SLIDE_Y)));
    assert!(!a.contains(AnchorHints::from_bits(HINT_RESIZE_Y)));
    assert!(a.contains(AnchorHints::none()));
}
