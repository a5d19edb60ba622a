//! The closed set of physics engines and the fixed cycle through them.

use vstd::prelude::*;

verus! {

/// One of the four interchangeable rigid-body engines.
#[derive(Clone, Copy, Debug, PartialEq, Eq, Hash, Structural)]
pub enum PhysicsMode {
    Avian2d,
    Avian3d,
    Rapier2d,
    Rapier3d,
}

impl PhysicsMode {
    /// Position of the mode in the cycle, counted from zero.
    pub open spec fn index(self) -> nat {
        match self {
            PhysicsMode::Avian2d => 0,
            PhysicsMode::Avian3d => 1,
            PhysicsMode::Rapier2d => 2,
            PhysicsMode::Rapier3d => 3,
        }
    }

    /// The mode that stands at a position of the cycle, positions taken modulo four.
    pub open spec fn at(i: nat) -> PhysicsMode {
        if i % 4 == 0 {
            PhysicsMode::Avian2d
        } else if i % 4 == 1 {
            PhysicsMode::Avian3d
        } else if i % 4 == 2 {
            PhysicsMode::Rapier2d
        } else {
            PhysicsMode::Rapier3d
        }
    }

    /// Successor in the cycle: one position further, wrapping after the last.
    pub open spec fn spec_next(self) -> PhysicsMode {
        PhysicsMode::at(self.index() + 1)
    }

    /// Whether the engine simulates a volume (three axes) rather than a plane.
    pub open spec fn spec_is_3d(self) -> bool {
        self == PhysicsMode::Avian3d || self == PhysicsMode::Rapier3d
    }

    /// Whether the engine belongs to the Rapier family (half extents, fixed bodies).
    pub open spec fn spec_is_rapier(self) -> bool {
        self == PhysicsMode::Rapier2d || self == PhysicsMode::Rapier3d
    }

    /// The text shown to the operator for each mode.
    pub open spec fn spec_label(self) -> Seq<char> {
        match self {
            PhysicsMode::Avian2d => "Avian 2D"@,
            PhysicsMode::Avian3d => "Avian 3D"@,
            PhysicsMode::Rapier2d => "Rapier 2D"@,
            PhysicsMode::Rapier3d => "Rapier 3D"@,
        }
    }

    /// Human-readable name of the mode.
    pub fn label(self) -> (text: &'static str)
        ensures
            text@ == self.spec_label(),
    {
        match self {
            PhysicsMode::Avian2d => "Avian 2D",
            PhysicsMode::Avian3d => "Avian 3D",
            PhysicsMode::Rapier2d => "Rapier 2D",
            PhysicsMode::Rapier3d => "Rapier 3D",
        }
    }

    /// Cycle to the next mode: Avian 2D, Avian 3D, Rapier 2D, Rapier 3D, and round again.
    pub fn next(self) -> (successor: PhysicsMode)
        ensures
            successor == self.spec_next(),
            successor != self,
    {
        match self {
            PhysicsMode::Avian2d => PhysicsMode::Avian3d,
            PhysicsMode::Avian3d => PhysicsMode::Rapier2d,
            PhysicsMode::Rapier2d => PhysicsMode::Rapier3d,
            PhysicsMode::Rapier3d => PhysicsMode::Avian2d,
        }
    }

    /// True for the two volumetric engines.
    pub fn is_3d(self) -> (volumetric: bool)
        ensures
            volumetric == self.spec_is_3d(),
    {
        match self {
            PhysicsMode::Avian3d | PhysicsMode::Rapier3d => true,
            _ => false,
        }
    }

    /// True for the two Rapier engines.
    pub fn is_rapier(self) -> (rapier: bool)
        ensures
            rapier == self.spec_is_rapier(),
    {
        match self {
            PhysicsMode::Rapier2d | PhysicsMode::Rapier3d => true,
            _ => false,
        }
    }
}

impl Default for PhysicsMode {
    /// The harness starts on the first engine of the cycle.
    fn default() -> (mode: PhysicsMode)
        ensures
            mode == PhysicsMode::Avian2d,
    {
        PhysicsMode::Avian2d
    }
}

/// Four steps through the cycle lead back to the starting mode, and fewer do not.
pub proof fn lemma_next_cycles_after_four(mode: PhysicsMode)
    ensures
        mode.spec_next().spec_next().spec_next().spec_next() == mode,
        mode.spec_next() != mode,
        mode.spec_next().spec_next() != mode,
        mode.spec_next().spec_next().spec_next() != mode,
{
}

/// Every mode is reached from every other within three steps: the cycle visits the whole set.
pub proof fn lemma_cycle_visits_every_mode(from: PhysicsMode, to: PhysicsMode)
    ensures
        to == from || to == from.spec_next() || to == from.spec_next().spec_next()
            || to == from.spec_next().spec_next().spec_next(),
{
}

} // verus!
