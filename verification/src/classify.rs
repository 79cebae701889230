//! Classification of raw numeric wire codes into domain meaning.
//!
//! Each mapping is total: every representable code resolves to some tag, with
//! the documented default tag for unrecognized codes, so a protocol extension
//! can never crash the agent.

use vstd::prelude::*;

verus! {

/// Which player owns a hero or a base.
#[derive(Clone, Copy, PartialEq, Eq, Structural, Debug)]
pub enum Allegiance {
    Mine,
    Opponent,
}

/// What a visible entity is: a neutral monster or one player's hero.
#[derive(Clone, Copy, PartialEq, Eq, Structural, Debug)]
pub enum UnitKind {
    Neutral,
    Hero(Allegiance),
}

/// Which base, if any, a unit is currently on a trajectory to threaten.
#[derive(Clone, Copy, PartialEq, Eq, Structural, Debug)]
pub enum ThreatTarget {
    Neither,
    Base(Allegiance),
}

/// What a unit is currently doing: moving freely or locked on a target.
#[derive(Clone, Copy, PartialEq, Eq, Structural, Debug)]
pub enum BehaviorMode {
    Moving,
    Targeting,
}

impl UnitKind {
    /// The wire mapping from a numeric type code to a unit kind.
    pub open spec fn spec_from(code: u16) -> UnitKind {
        if code == 1 {
            UnitKind::Hero(Allegiance::Mine)
        } else if code == 2 {
            UnitKind::Hero(Allegiance::Opponent)
        } else {
            UnitKind::Neutral
        }
    }

    /// Classify a raw type code: 1 is my hero, 2 is the opponent's hero, and
    /// every other code is a neutral unit.
    pub fn from_u16(code: u16) -> (r: UnitKind)
        ensures
            r == UnitKind::spec_from(code),
    {
        match code {
            1u16 => UnitKind::Hero(Allegiance::Mine),
            2u16 => UnitKind::Hero(Allegiance::Opponent),
            _ => UnitKind::Neutral,
        }
    }

    /// The canonical wire code of a kind: the code it re-serializes to.
    pub open spec fn spec_code(self) -> u16 {
        match self {
            UnitKind::Neutral => 0,
            UnitKind::Hero(Allegiance::Mine) => 1,
            UnitKind::Hero(Allegiance::Opponent) => 2,
        }
    }

    /// Re-serialize this kind to its canonical wire code.
    pub fn code(&self) -> (r: u16)
        ensures
            r == self.spec_code(),
    {
        match self {
            UnitKind::Neutral => 0,
            UnitKind::Hero(Allegiance::Mine) => 1,
            UnitKind::Hero(Allegiance::Opponent) => 2,
        }
    }
}

impl ThreatTarget {
    /// The wire mapping from a numeric threat code to a threat target.
    pub open spec fn spec_from(code: u16) -> ThreatTarget {
        if code == 1 {
            ThreatTarget::Base(Allegiance::Mine)
        } else if code == 2 {
            ThreatTarget::Base(Allegiance::Opponent)
        } else {
            ThreatTarget::Neither
        }
    }

    /// Classify a raw threat code: 1 threatens my base, 2 the opponent's
    /// base, and every other code threatens neither.
    pub fn from_u16(code: u16) -> (r: ThreatTarget)
        ensures
            r == ThreatTarget::spec_from(code),
    {
        match code {
            1u16 => ThreatTarget::Base(Allegiance::Mine),
            2u16 => ThreatTarget::Base(Allegiance::Opponent),
            _ => ThreatTarget::Neither,
        }
    }

    /// The canonical wire code of a threat target.
    pub open spec fn spec_code(self) -> u16 {
        match self {
            ThreatTarget::Neither => 0,
            ThreatTarget::Base(Allegiance::Mine) => 1,
            ThreatTarget::Base(Allegiance::Opponent) => 2,
        }
    }

    /// Re-serialize this threat target to its canonical wire code.
    pub fn code(&self) -> (r: u16)
        ensures
            r == self.spec_code(),
    {
        match self {
            ThreatTarget::Neither => 0,
            ThreatTarget::Base(Allegiance::Mine) => 1,
            ThreatTarget::Base(Allegiance::Opponent) => 2,
        }
    }
}

impl BehaviorMode {
    /// The wire mapping from a numeric behavior flag to a mode: nonzero means
    /// the unit has locked a target, zero means it is still moving freely.
    pub open spec fn spec_from(code: u16) -> BehaviorMode {
        if code != 0 {
            BehaviorMode::Targeting
        } else {
            BehaviorMode::Moving
        }
    }

    /// Classify a raw behavior flag.
    pub fn from_u16(code: u16) -> (r: BehaviorMode)
        ensures
            r == BehaviorMode::spec_from(code),
    {
        if code != 0 {
            BehaviorMode::Targeting
        } else {
            BehaviorMode::Moving
        }
    }

    /// The canonical wire code of a behavior mode.
    pub open spec fn spec_code(self) -> u16 {
        match self {
            BehaviorMode::Moving => 0,
            BehaviorMode::Targeting => 1,
        }
    }

    /// Re-serialize this mode to its canonical wire code.
    pub fn code(&self) -> (r: u16)
        ensures
            r == self.spec_code(),
    {
        match self {
            BehaviorMode::Moving => 0,
            BehaviorMode::Targeting => 1,
        }
    }
}

/// Totality default: every type code outside the documented {1, 2} domain
/// classifies as a neutral unit.
pub proof fn lemma_unit_kind_default(code: u16)
    requires
        code != 1,
        code != 2,
    ensures
        UnitKind::spec_from(code) == UnitKind::Neutral,
{
}

/// Totality default: every threat code outside the documented {1, 2} domain
/// classifies as threatening neither base.
pub proof fn lemma_threat_target_default(code: u16)
    requires
        code != 1,
        code != 2,
    ensures
        ThreatTarget::spec_from(code) == ThreatTarget::Neither,
{
}

/// A behavior flag classifies as Targeting exactly when it is nonzero.
pub proof fn lemma_behavior_targeting_iff_nonzero(code: u16)
    ensures
        BehaviorMode::spec_from(code) == BehaviorMode::Targeting <==> code != 0,
{
}

/// Within the documented code domain, classification loses nothing: the
/// canonical code of the classified tag is the code that was transmitted.
pub proof fn lemma_unit_kind_code_round_trip(code: u16)
    requires
        code == 0 || code == 1 || code == 2,
    ensures
        UnitKind::spec_from(code).spec_code() == code,
{
}

/// Within the documented code domain, the threat mapping loses nothing.
pub proof fn lemma_threat_target_code_round_trip(code: u16)
    requires
        code == 0 || code == 1 || code == 2,
    ensures
        ThreatTarget::spec_from(code).spec_code() == code,
{
}

/// Within the documented flag domain, the behavior mapping loses nothing.
pub proof fn lemma_behavior_mode_code_round_trip(code: u16)
    requires
        code == 0 || code == 1,
    ensures
        BehaviorMode::spec_from(code).spec_code() == code,
{
}

} // verus!
