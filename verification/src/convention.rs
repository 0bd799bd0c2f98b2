//! Earth-frame conventions and the reference axes they fix.

use vstd::prelude::*;

verus! {

/// Handedness of the earth frame in which orientation is reported.
#[derive(Clone, Copy, Debug, PartialEq, Eq, Structural)]
pub enum FusionConvention {
    /// North-West-Up
    NWU,
    /// East-North-Up
    ENU,
    /// North-East-Down
    NED,
}

/// A direction along one of the earth frame's axes, each component -1, 0 or 1.
#[derive(Clone, Copy, Debug, PartialEq, Eq, Structural)]
pub struct Axis {
    pub x: i8,
    pub y: i8,
    pub z: i8,
}

impl Axis {
    /// Dot product of two axes.
    pub open spec fn dot(self, other: Axis) -> int {
        self.x * other.x + self.y * other.y + self.z * other.z
    }

    /// Whether the axis has length one.
    pub open spec fn is_unit(self) -> bool {
        self.dot(self) == 1
    }
}

impl FusionConvention {
    /// The earth-frame direction opposite to gravity.
    pub open spec fn spec_up(self) -> Axis {
        match self {
            FusionConvention::NWU => Axis { x: 0, y: 0, z: 1 },
            FusionConvention::ENU => Axis { x: 0, y: 0, z: 1 },
            FusionConvention::NED => Axis { x: 0, y: 0, z: -1i8 },
        }
    }

    /// The earth-frame direction of magnetic west, against which heading is
    /// corrected.
    pub open spec fn spec_west(self) -> Axis {
        match self {
            FusionConvention::NWU => Axis { x: 0, y: 1, z: 0 },
            FusionConvention::ENU => Axis { x: -1i8, y: 0, z: 0 },
            FusionConvention::NED => Axis { x: 0, y: -1i8, z: 0 },
        }
    }

    /// The "up" unit vector of this convention.
    pub fn up(self) -> (axis: Axis)
        ensures
            axis == self.spec_up(),
    {
        match self {
            FusionConvention::NWU => Axis { x: 0, y: 0, z: 1 },
            FusionConvention::ENU => Axis { x: 0, y: 0, z: 1 },
            FusionConvention::NED => Axis { x: 0, y: 0, z: -1 },
        }
    }

    /// The magnetic reference axis of this convention.
    pub fn west(self) -> (axis: Axis)
        ensures
            axis == self.spec_west(),
    {
        match self {
            FusionConvention::NWU => Axis { x: 0, y: 1, z: 0 },
            FusionConvention::ENU => Axis { x: -1, y: 0, z: 0 },
            FusionConvention::NED => Axis { x: 0, y: -1, z: 0 },
        }
    }

    /// In every convention the gravity and heading references are unit vectors
    /// at a right angle, so tilt and heading corrections do not interfere.
    pub proof fn lemma_references_orthonormal(self)
        ensures
            self.spec_up().is_unit(),
            self.spec_west().is_unit(),
            self.spec_up().dot(self.spec_west()) == 0,
    {
        let up = self.spec_up();
        let west = self.spec_west();
        assert(up.x == 0 && up.y == 0 && (up.z == 1 || up.z == -1));
        assert((west.x == 0 && (west.y == 1 || west.y == -1) || west.x == -1 && west.y == 0)
            && west.z == 0);
    }
}

} // verus!
