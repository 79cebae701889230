//! The entity model: a unit record assembled from one entity line, and a
//! base record holding position and per-turn resources.

use vstd::prelude::*;

use crate::classify::{Allegiance, BehaviorMode, ThreatTarget, UnitKind};
use crate::parse::{
    i16_numeral_value, is_i16_numeral, is_u16_numeral, pair_violation, parse_i16, parse_u16,
    parse_u16_pair, u16_numeral_value, valid_pair_tokens, ProtocolViolation,
};

verus! {

/// One player's base: a position fixed at match setup and resources that are
/// refreshed once per turn.
#[derive(Clone, Copy, PartialEq, Eq, Structural, Debug)]
pub struct Base {
    pub x: u16,
    pub y: u16,
    pub health: u16,
    pub mana: u16,
}

impl Base {
    /// Build the player's base from the two tokens of the setup coordinate
    /// line. Resources start at zero: the first turn report fills them in.
    pub fn from_setup(tokens: &Vec<Vec<u8>>) -> (r: Result<Base, ProtocolViolation>)
        ensures
            r is Ok <==> valid_pair_tokens(tokens.deep_view()),
            r matches Ok(b) ==> {
                &&& b.x == u16_numeral_value(tokens.deep_view()[0])
                &&& b.y == u16_numeral_value(tokens.deep_view()[1])
                &&& b.health == 0
                &&& b.mana == 0
            },
            r matches Err(e) ==> e == pair_violation(tokens.deep_view()),
    {
        match parse_u16_pair(tokens) {
            Ok((x, y)) => Ok(Base { x, y, health: 0, mana: 0 }),
            Err(e) => Err(e),
        }
    }

    /// The record for the other player's base at match setup. The setup line
    /// carries only this player's coordinates, so the opposing position is a
    /// configured placeholder rather than a computed reflection; both bases
    /// report health and mana the same way, so the current readings carry
    /// over (both are zero until the first turn report).
    pub fn other(&self) -> (r: Base)
        ensures
            r.x == 1,
            r.y == 1,
            r.health == self.health,
            r.mana == self.mana,
    {
        Base { x: 1, y: 1, health: self.health, mana: self.mana }
    }

    /// Apply one per-turn resource report to this base; the position set at
    /// match setup is untouched.
    pub fn update(&mut self, health: u16, mana: u16)
        ensures
            final(self).x == old(self).x,
            final(self).y == old(self).y,
            final(self).health == health,
            final(self).mana == mana,
    {
        self.health = health;
        self.mana = mana;
    }
}

/// One visible unit, rebuilt from scratch every turn from its snapshot line.
#[derive(Clone, Copy, PartialEq, Eq, Structural, Debug)]
pub struct Entity {
    /// Identifier stable across turns.
    pub id: u16,
    /// What the unit is: a neutral monster or one player's hero.
    pub kind: UnitKind,
    pub x: u16,
    pub y: u16,
    /// Turns of damage immunity remaining; zero means none.
    pub shield_life: u16,
    /// Nonzero while an external control effect drives this unit.
    pub is_controlled: u16,
    /// Remaining hit points.
    pub health: u16,
    /// Signed displacement per turn.
    pub vx: i16,
    pub vy: i16,
    /// Whether the unit is moving freely or has locked a target.
    pub action: BehaviorMode,
    /// Which base, if any, the unit's trajectory threatens.
    pub threat_for: ThreatTarget,
}

/// The eleven tokens of a well-formed entity line, in wire order: id, type
/// code, x, y, shield, control flag, health, vx, vy, behavior flag, threat
/// code.
pub open spec fn valid_unit_tokens(toks: Seq<Seq<u8>>) -> bool {
    &&& toks.len() == 11
    &&& is_u16_numeral(toks[0])
    &&& is_u16_numeral(toks[1])
    &&& is_u16_numeral(toks[2])
    &&& is_u16_numeral(toks[3])
    &&& is_u16_numeral(toks[4])
    &&& is_u16_numeral(toks[5])
    &&& is_u16_numeral(toks[6])
    &&& is_i16_numeral(toks[7])
    &&& is_i16_numeral(toks[8])
    &&& is_u16_numeral(toks[9])
    &&& is_u16_numeral(toks[10])
}

/// The unit a well-formed entity line denotes.
pub open spec fn spec_unit_of(toks: Seq<Seq<u8>>) -> Entity {
    Entity {
        id: u16_numeral_value(toks[0]) as u16,
        kind: UnitKind::spec_from(u16_numeral_value(toks[1]) as u16),
        x: u16_numeral_value(toks[2]) as u16,
        y: u16_numeral_value(toks[3]) as u16,
        shield_life: u16_numeral_value(toks[4]) as u16,
        is_controlled: u16_numeral_value(toks[5]) as u16,
        health: u16_numeral_value(toks[6]) as u16,
        vx: i16_numeral_value(toks[7]) as i16,
        vy: i16_numeral_value(toks[8]) as i16,
        action: BehaviorMode::spec_from(u16_numeral_value(toks[9]) as u16),
        threat_for: ThreatTarget::spec_from(u16_numeral_value(toks[10]) as u16),
    }
}

/// The violation a malformed entity line is reported as.
pub open spec fn unit_violation(toks: Seq<Seq<u8>>) -> ProtocolViolation {
    if toks.len() != 11 {
        ProtocolViolation::TokenCount
    } else {
        ProtocolViolation::BadNumber
    }
}

impl Entity {
    /// Build one unit from the tokens of one entity line. The line must hold
    /// exactly eleven numerals in the fixed wire order; anything else is a
    /// protocol violation and no partial unit is built.
    pub fn new(tokens: &Vec<Vec<u8>>) -> (r: Result<Entity, ProtocolViolation>)
        ensures
            r is Ok <==> valid_unit_tokens(tokens.deep_view()),
            r matches Ok(e) ==> e == spec_unit_of(tokens.deep_view()),
            r matches Err(e) ==> e == unit_violation(tokens.deep_view()),
    {
        if tokens.len() != 11 {
            return Err(ProtocolViolation::TokenCount);
        }
        proof {
            assert(forall|i: int|
                0 <= i < 11 ==> tokens.deep_view()[i] == #[trigger] tokens@[i]@);
        }
        let id = match parse_u16(&tokens[0]) {
            Ok(v) => v,
            Err(e) => {
                return Err(e);
            },
        };
        let type_code = match parse_u16(&tokens[1]) {
            Ok(v) => v,
            Err(e) => {
                return Err(e);
            },
        };
        let x = match parse_u16(&tokens[2]) {
            Ok(v) => v,
            Err(e) => {
                return Err(e);
            },
        };
        let y = match parse_u16(&tokens[3]) {
            Ok(v) => v,
            Err(e) => {
                return Err(e);
            },
        };
        let shield_life = match parse_u16(&tokens[4]) {
            Ok(v) => v,
            Err(e) => {
                return Err(e);
            },
        };
        let is_controlled = match parse_u16(&tokens[5]) {
            Ok(v) => v,
            Err(e) => {
                return Err(e);
            },
        };
        let health = match parse_u16(&tokens[6]) {
            Ok(v) => v,
            Err(e) => {
                return Err(e);
            },
        };
        let vx = match parse_i16(&tokens[7]) {
            Ok(v) => v,
            Err(e) => {
                return Err(e);
            },
        };
        let vy = match parse_i16(&tokens[8]) {
            Ok(v) => v,
            Err(e) => {
                return Err(e);
            },
        };
        let action_code = match parse_u16(&tokens[9]) {
            Ok(v) => v,
            Err(e) => {
                return Err(e);
            },
        };
        let threat_code = match parse_u16(&tokens[10]) {
            Ok(v) => v,
            Err(e) => {
                return Err(e);
            },
        };
        Ok(
            Entity {
                id,
                kind: UnitKind::from_u16(type_code),
                x,
                y,
                shield_life,
                is_controlled,
                health,
                vx,
                vy,
                action: BehaviorMode::from_u16(action_code),
                threat_for: ThreatTarget::from_u16(threat_code),
            },
        )
    }

    /// Re-serialize the unit's fields to the eleven numeric values of its
    /// wire order, with each tag rendered as its canonical code.
    pub fn field_codes(&self) -> (r: (
        u16,
        u16,
        u16,
        u16,
        u16,
        u16,
        u16,
        i16,
        i16,
        u16,
        u16,
    ))
        ensures
            r == self.spec_field_codes(),
    {
        (
            self.id,
            self.kind.code(),
            self.x,
            self.y,
            self.shield_life,
            self.is_controlled,
            self.health,
            self.vx,
            self.vy,
            self.action.code(),
            self.threat_for.code(),
        )
    }

    /// The eleven numeric values the unit's fields re-serialize to.
    pub open spec fn spec_field_codes(self) -> (u16, u16, u16, u16, u16, u16, u16, i16, i16, u16, u16) {
        (
            self.id,
            self.kind.spec_code(),
            self.x,
            self.y,
            self.shield_life,
            self.is_controlled,
            self.health,
            self.vx,
            self.vy,
            self.action.spec_code(),
            self.threat_for.spec_code(),
        )
    }
}

/// Round trip: a unit built from a well-formed entity line whose coded
/// fields lie in their documented domains re-serializes to exactly the
/// numeric values the line carried; the eight plain numeric fields
/// round-trip for every well-formed line.
pub proof fn lemma_unit_round_trip(toks: Seq<Seq<u8>>)
    requires
        valid_unit_tokens(toks),
        u16_numeral_value(toks[1]) <= 2,
        u16_numeral_value(toks[10]) <= 2,
        u16_numeral_value(toks[9]) <= 1,
    ensures
        spec_unit_of(toks).spec_field_codes() == (
            u16_numeral_value(toks[0]) as u16,
            u16_numeral_value(toks[1]) as u16,
            u16_numeral_value(toks[2]) as u16,
            u16_numeral_value(toks[3]) as u16,
            u16_numeral_value(toks[4]) as u16,
            u16_numeral_value(toks[5]) as u16,
            u16_numeral_value(toks[6]) as u16,
            i16_numeral_value(toks[7]) as i16,
            i16_numeral_value(toks[8]) as i16,
            u16_numeral_value(toks[9]) as u16,
            u16_numeral_value(toks[10]) as u16,
        ),
{
    crate::parse::lemma_u16_numeral_value_in_range(toks[0]);
    crate::parse::lemma_u16_numeral_value_in_range(toks[1]);
    crate::parse::lemma_u16_numeral_value_in_range(toks[2]);
    crate::parse::lemma_u16_numeral_value_in_range(toks[3]);
    crate::parse::lemma_u16_numeral_value_in_range(toks[4]);
    crate::parse::lemma_u16_numeral_value_in_range(toks[5]);
    crate::parse::lemma_u16_numeral_value_in_range(toks[6]);
    crate::parse::lemma_i16_numeral_value_in_range(toks[7]);
    crate::parse::lemma_i16_numeral_value_in_range(toks[8]);
    crate::parse::lemma_u16_numeral_value_in_range(toks[9]);
    crate::parse::lemma_u16_numeral_value_in_range(toks[10]);
    crate::classify::lemma_unit_kind_code_round_trip(u16_numeral_value(toks[1]) as u16);
    crate::classify::lemma_behavior_mode_code_round_trip(u16_numeral_value(toks[9]) as u16);
    crate::classify::lemma_threat_target_code_round_trip(u16_numeral_value(toks[10]) as u16);
}

} // verus!
