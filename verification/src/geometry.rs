//! Sizes and positions in logical and physical pixel units, and the
//! rounded conversions between them.
//!
//! Scale factors are carried as integers in 1/120ths, the unit in which
//! the fractional-scale protocol reports them: a value of 120 means a
//! scale of one, 180 means one and a half. All conversions round half
//! away from zero; every quantity here is non-negative, so that is the
//! same as rounding half up.

use vstd::prelude::*;

verus! {

/// The scale-factor value that denotes a scale of exactly one.
pub const SCALE_ONE: u32 = 120;

/// A size in logical pixels (independent of the output's scale).
#[derive(Debug, Clone, Copy, PartialEq, Eq, Hash, Structural)]
pub struct LogicalSize {
    pub width: u32,
    pub height: u32,
}

/// A size in physical pixels (what the compositor composites).
#[derive(Debug, Clone, Copy, PartialEq, Eq, Hash, Structural)]
pub struct PhysicalSize {
    pub width: u32,
    pub height: u32,
}

/// A position in logical pixels.
#[derive(Debug, Clone, Copy, PartialEq, Eq, Hash, Structural)]
pub struct LogicalPosition {
    pub x: i32,
    pub y: i32,
}

/// A position in physical pixels.
#[derive(Debug, Clone, Copy, PartialEq, Eq, Hash, Structural)]
pub struct PhysicalPosition {
    pub x: i32,
    pub y: i32,
}

/// A size in either unit system, as supplied by the application.
#[derive(Debug, Clone, Copy, PartialEq, Eq, Hash, Structural)]
pub enum Size {
    Logical(LogicalSize),
    Physical(PhysicalSize),
}

/// A position in either unit system, as supplied by the application.
#[derive(Debug, Clone, Copy, PartialEq, Eq, Hash, Structural)]
pub enum Position {
    Logical(LogicalPosition),
    Physical(PhysicalPosition),
}

/// One logical dimension scaled to physical pixels: `v * scale / 120`,
/// rounded half up and saturated at `u32::MAX`.
pub open spec fn spec_logical_to_physical(v: u32, scale: u32) -> u32 {
    let r = ((v as int) * (scale as int) + 60) / 120;
    if r > u32::MAX as int {
        u32::MAX
    } else {
        r as u32
    }
}

/// One physical dimension scaled back to logical pixels: `v * 120 / scale`,
/// rounded half up and saturated at `u32::MAX`.
pub open spec fn spec_physical_to_logical(v: u32, scale: u32) -> u32
    recommends
        scale >= 1,
{
    let r = (2 * (v as int) * 120 + (scale as int)) / (2 * (scale as int));
    if r > u32::MAX as int {
        u32::MAX
    } else {
        r as u32
    }
}

/// Scales one logical dimension to physical pixels, rounding half up and
/// saturating at `u32::MAX`.
pub fn logical_to_physical(v: u32, scale: u32) -> (r: u32)
    ensures
        r == spec_logical_to_physical(v, scale),
{
    proof {
        assert((v as int) * (scale as int) <= 0xffff_ffff * 0xffff_ffff) by (nonlinear_arith)
            requires
                v as int <= 0xffff_ffff,
                scale as int <= 0xffff_ffff,
                0 <= v as int,
                0 <= scale as int,
        ;
    }
    let wide: u64 = (v as u64) * (scale as u64) + 60;
    let scaled: u64 = wide / 120;
    if scaled > u32::MAX as u64 {
        u32::MAX
    } else {
        scaled as u32
    }
}

/// Scales one physical dimension back to logical pixels, rounding half up
/// and saturating at `u32::MAX`.
pub fn physical_to_logical(v: u32, scale: u32) -> (r: u32)
    requires
        scale >= 1,
    ensures
        r == spec_physical_to_logical(v, scale),
{
    let wide: u64 = 2 * (v as u64) * 120 + (scale as u64);
    let scaled: u64 = wide / (2 * (scale as u64));
    if scaled > u32::MAX as u64 {
        u32::MAX
    } else {
        scaled as u32
    }
}

impl LogicalSize {
    /// This size in physical pixels at the given scale factor.
    pub open spec fn spec_to_physical(self, scale: u32) -> PhysicalSize {
        PhysicalSize {
            width: spec_logical_to_physical(self.width, scale),
            height: spec_logical_to_physical(self.height, scale),
        }
    }

    /// Converts this size to physical pixels at the given scale factor.
    pub fn to_physical(self, scale: u32) -> (r: PhysicalSize)
        ensures
            r == self.spec_to_physical(scale),
    {
        PhysicalSize {
            width: logical_to_physical(self.width, scale),
            height: logical_to_physical(self.height, scale),
        }
    }
}

impl Size {
    /// This size reduced to logical pixels at the given scale factor: a
    /// logical size passes through unchanged, a physical one is divided
    /// by the scale with rounding.
    pub open spec fn spec_to_logical(self, scale: u32) -> LogicalSize {
        match self {
            Size::Logical(l) => l,
            Size::Physical(p) => LogicalSize {
                width: spec_physical_to_logical(p.width, scale),
                height: spec_physical_to_logical(p.height, scale),
            },
        }
    }

    /// Reduces this size to logical pixels at the given scale factor.
    pub fn to_logical(self, scale: u32) -> (r: LogicalSize)
        requires
            scale >= 1,
        ensures
            r == self.spec_to_logical(scale),
    {
        match self {
            Size::Logical(l) => l,
            Size::Physical(p) => LogicalSize {
                width: physical_to_logical(p.width, scale),
                height: physical_to_logical(p.height, scale),
            },
        }
    }
}

impl Position {
    /// The stored coordinates. At a scale of exactly one — the scale at
    /// which surfaces are created — logical and physical coordinates
    /// agree, so no conversion is involved.
    pub open spec fn spec_xy(self) -> (i32, i32) {
        match self {
            Position::Logical(l) => (l.x, l.y),
            Position::Physical(p) => (p.x, p.y),
        }
    }

    /// The coordinates at unit scale, where the two unit systems agree.
    pub fn xy(self) -> (r: (i32, i32))
        ensures
            r == self.spec_xy(),
    {
        match self {
            Position::Logical(l) => (l.x, l.y),
            Position::Physical(p) => (p.x, p.y),
        }
    }
}

} // verus!
