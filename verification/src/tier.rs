//! Privilege tiers and the per-feature minimum-tier table.

use vstd::prelude::*;

verus! {

/// A privilege tier, ordered from most to least privileged:
/// `Operator > Trusted > Authenticated > Guest`.
///
/// A lower rank number means more privilege; `Guest` is the fallback for any
/// out-of-range value decoded from external input.
#[derive(Copy, Clone, Debug, PartialEq, Eq, Structural)]
pub enum Tier {
    Operator,
    Trusted,
    Authenticated,
    Guest,
}

impl Tier {
    /// Numeric rank of the tier; lower means more privileged.
    pub open spec fn rank(self) -> int {
        match self {
            Tier::Operator => 0,
            Tier::Trusted => 1,
            Tier::Authenticated => 2,
            Tier::Guest => 3,
        }
    }

    /// Does a participant holding tier `self` meet the requirement `required`?
    pub open spec fn spec_satisfies(self, required: Tier) -> bool {
        self.rank() <= required.rank()
    }

    /// The wire code of the tier, equal to its rank.
    pub fn code(self) -> (r: u8)
        ensures
            r as int == self.rank(),
    {
        match self {
            Tier::Operator => 0,
            Tier::Trusted => 1,
            Tier::Authenticated => 2,
            Tier::Guest => 3,
        }
    }

    /// Threshold comparison: a participant's tier satisfies a requirement when
    /// its rank is numerically at most the required rank.
    pub fn satisfies(self, required: Tier) -> (r: bool)
        ensures
            r == self.spec_satisfies(required),
    {
        self.code() <= required.code()
    }

    /// The tier denoted by an externally supplied code; any value outside the
    /// four defined codes resolves to `Guest`.
    pub open spec fn spec_from_code(code: u8) -> Tier {
        if code == 0 {
            Tier::Operator
        } else if code == 1 {
            Tier::Trusted
        } else if code == 2 {
            Tier::Authenticated
        } else {
            Tier::Guest
        }
    }

    /// Decode a tier from an external byte, resolving out-of-range values to
    /// `Guest` rather than failing.
    pub fn from_code(code: u8) -> (r: Tier)
        ensures
            r == Tier::spec_from_code(code),
    {
        match code {
            0 => Tier::Operator,
            1 => Tier::Trusted,
            2 => Tier::Authenticated,
            _ => Tier::Guest,
        }
    }
}

/// The nine independently configurable minimum-tier thresholds, one per gated
/// capability.
#[derive(Copy, Clone, Debug, PartialEq, Eq, Structural)]
pub struct FeatureTiers {
    /// Use of the image-paste command (covers cut&paste, move with transform, etc.)
    pub put_image: Tier,
    /// Selection moving (without transformation)
    pub move_rect: Tier,
    /// Canvas resize
    pub resize: Tier,
    /// Canvas background changing
    pub background: Tier,
    /// Permission to edit any layer's properties and to reorganize them
    pub edit_layers: Tier,
    /// Permission to create and edit own layers
    pub own_layers: Tier,
    /// Permission to create new annotations
    pub create_annotation: Tier,
    /// Permission to use the laser pointer tool
    pub laser: Tier,
    /// Permission to use undo/redo
    pub undo: Tier,
}

impl FeatureTiers {
    /// The default thresholds: resize, background and edit-any-layer are
    /// operator-only; everything else is open to guests.
    pub open spec fn spec_default() -> FeatureTiers {
        FeatureTiers {
            put_image: Tier::Guest,
            move_rect: Tier::Guest,
            resize: Tier::Operator,
            background: Tier::Operator,
            edit_layers: Tier::Operator,
            own_layers: Tier::Guest,
            create_annotation: Tier::Guest,
            laser: Tier::Guest,
            undo: Tier::Guest,
        }
    }

    /// Build the default threshold table.
    pub fn defaults() -> (r: FeatureTiers)
        ensures
            r == FeatureTiers::spec_default(),
    {
        FeatureTiers {
            put_image: Tier::Guest,
            move_rect: Tier::Guest,
            resize: Tier::Operator,
            background: Tier::Operator,
            edit_layers: Tier::Operator,
            own_layers: Tier::Guest,
            create_annotation: Tier::Guest,
            laser: Tier::Guest,
            undo: Tier::Guest,
        }
    }

    /// The threshold table denoted by nine externally supplied tier codes, in
    /// the fixed field order of the reconfiguration message.
    pub open spec fn spec_from_codes(f: [u8; 9]) -> FeatureTiers {
        FeatureTiers {
            put_image: Tier::spec_from_code(f[0]),
            move_rect: Tier::spec_from_code(f[1]),
            resize: Tier::spec_from_code(f[2]),
            background: Tier::spec_from_code(f[3]),
            edit_layers: Tier::spec_from_code(f[4]),
            own_layers: Tier::spec_from_code(f[5]),
            create_annotation: Tier::spec_from_code(f[6]),
            laser: Tier::spec_from_code(f[7]),
            undo: Tier::spec_from_code(f[8]),
        }
    }

    /// Decode the full threshold table from nine tier codes.
    pub fn from_codes(f: &[u8; 9]) -> (r: FeatureTiers)
        ensures
            r == FeatureTiers::spec_from_codes(*f),
    {
        FeatureTiers {
            put_image: Tier::from_code(f[0]),
            move_rect: Tier::from_code(f[1]),
            resize: Tier::from_code(f[2]),
            background: Tier::from_code(f[3]),
            edit_layers: Tier::from_code(f[4]),
            own_layers: Tier::from_code(f[5]),
            create_annotation: Tier::from_code(f[6]),
            laser: Tier::from_code(f[7]),
            undo: Tier::from_code(f[8]),
        }
    }
}

} // verus!
