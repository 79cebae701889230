//! The per-turn decision step: select this player's units and the units
//! threatening this player's base, and emit exactly one command per
//! controlled unit, in snapshot order.

use vstd::prelude::*;

use crate::classify::{Allegiance, ThreatTarget, UnitKind};
use crate::entity::{Base, Entity};

verus! {

/// Whether a unit is one of this player's heroes.
pub open spec fn is_controlled_unit(e: Entity) -> bool {
    e.kind == UnitKind::Hero(Allegiance::Mine)
}

/// Whether a unit currently threatens this player's base.
pub open spec fn is_threat_to_me(e: Entity) -> bool {
    e.threat_for == ThreatTarget::Base(Allegiance::Mine)
}

/// One command to emit for a controlled unit. The only command of the
/// current placeholder policy is holding position; a real strategy replaces
/// the policy while keeping one command per controlled unit per turn.
#[derive(Clone, Copy, PartialEq, Eq, Structural, Debug)]
pub enum Command {
    Wait,
}

impl Command {
    /// The characters this command is written as on the wire, without the
    /// line terminator.
    pub open spec fn spec_text(self) -> Seq<char> {
        seq!['W', 'A', 'I', 'T']
    }

    /// Render the command as one output line's text.
    pub fn text(&self) -> (r: &'static str)
        ensures
            r@ == self.spec_text(),
    {
        proof {
            reveal_strlit("WAIT");
            assert("WAIT"@ =~= seq!['W', 'A', 'I', 'T']);
        }
        match self {
            Command::Wait => "WAIT",
        }
    }
}

/// Select this player's controlled units, preserving snapshot order.
pub fn controlled_units(entities: &Vec<Entity>) -> (r: Vec<Entity>)
    ensures
        r@ == entities@.filter(|e: Entity| is_controlled_unit(e)),
{
    let mut r: Vec<Entity> = Vec::new();
    let mut i: usize = 0;
    while i < entities.len()
        invariant
            i <= entities@.len(),
            r@ == entities@.take(i as int).filter(|e: Entity| is_controlled_unit(e)),
        decreases entities@.len() - i,
    {
        proof {
            entities@.take(i as int).lemma_filter_push(
                entities@[i as int],
                |e: Entity| is_controlled_unit(e),
            );
            assert(entities@.take(i + 1) =~= entities@.take(i as int).push(entities@[i as int]));
        }
        let e = entities[i];
        if e.kind.code() == 1 {
            r.push(e);
        }
        i += 1;
    }
    proof {
        assert(entities@.take(entities@.len() as int) =~= entities@);
    }
    r
}

/// Select the units whose trajectory threatens this player's base,
/// preserving snapshot order.
pub fn threatening_units(entities: &Vec<Entity>) -> (r: Vec<Entity>)
    ensures
        r@ == entities@.filter(|e: Entity| is_threat_to_me(e)),
{
    let mut r: Vec<Entity> = Vec::new();
    let mut i: usize = 0;
    while i < entities.len()
        invariant
            i <= entities@.len(),
            r@ == entities@.take(i as int).filter(|e: Entity| is_threat_to_me(e)),
        decreases entities@.len() - i,
    {
        proof {
            entities@.take(i as int).lemma_filter_push(
                entities@[i as int],
                |e: Entity| is_threat_to_me(e),
            );
            assert(entities@.take(i + 1) =~= entities@.take(i as int).push(entities@[i as int]));
        }
        let e = entities[i];
        if e.threat_for.code() == 1 {
            r.push(e);
        }
        i += 1;
    }
    proof {
        assert(entities@.take(entities@.len() as int) =~= entities@);
    }
    r
}

/// The replaceable per-turn policy. The current placeholder holds position
/// with every controlled unit, whatever the threats and base states say; it
/// still emits exactly one command per controlled unit, in selection order.
pub fn plan_commands(
    controlled: &Vec<Entity>,
    _threats: &Vec<Entity>,
    _my_base: &Base,
    _enemy_base: &Base,
) -> (cmds: Vec<Command>)
    ensures
        cmds@.len() == controlled@.len(),
        forall|i: int| 0 <= i < cmds@.len() ==> cmds@[i] == Command::Wait,
{
    let mut cmds: Vec<Command> = Vec::new();
    let mut i: usize = 0;
    while i < controlled.len()
        invariant
            i <= controlled@.len(),
            cmds@.len() == i,
            forall|j: int| 0 <= j < cmds@.len() ==> cmds@[j] == Command::Wait,
        decreases controlled@.len() - i,
    {
        cmds.push(Command::Wait);
        i += 1;
    }
    cmds
}

/// One turn's decision step: select the controlled units and threats from
/// the snapshot and produce exactly one command per controlled unit, in the
/// order those units appeared in the entity list.
pub fn decide_turn(entities: &Vec<Entity>, my_base: &Base, enemy_base: &Base) -> (cmds: Vec<
    Command,
>)
    ensures
        cmds@.len() == entities@.filter(|e: Entity| is_controlled_unit(e)).len(),
        forall|i: int| 0 <= i < cmds@.len() ==> cmds@[i] == Command::Wait,
{
    let controlled = controlled_units(entities);
    let threats = threatening_units(entities);
    plan_commands(&controlled, &threats, my_base, enemy_base)
}

} // verus!
