//! The per-turn ingestion state machine.
//!
//! A turn snapshot arrives as a fixed-shape sequence of lines: this player's
//! base resources, the opponent's base resources, an entity count, then
//! exactly that many entity lines. The machine consumes one line per step;
//! a malformed line is reported as a protocol violation and the state is
//! left unchanged, since the protocol allows no retry.

use vstd::prelude::*;

use crate::entity::{spec_unit_of, unit_violation, valid_unit_tokens, Entity};
use crate::parse::{
    pair_violation, parse_single_u16, parse_u16_pair, single_violation, spec_tokens, tokenize,
    u16_numeral_value, valid_pair_tokens, valid_single_tokens, ProtocolViolation,
};

verus! {

/// Which line of the turn snapshot the machine expects next.
#[derive(Clone, Copy, PartialEq, Eq, Structural, Debug)]
pub enum ParseStage {
    AwaitingMyBaseUpdate,
    AwaitingEnemyBaseUpdate,
    AwaitingEntityCount,
    AwaitingEntityLines,
    TurnReady,
}

/// The mathematical state of the turn machine.
pub struct TurnModel {
    pub stage: ParseStage,
    pub my_health: u16,
    pub my_mana: u16,
    pub enemy_health: u16,
    pub enemy_mana: u16,
    /// The entity count the snapshot declared for this turn.
    pub declared: u16,
    pub entities: Seq<Entity>,
}

/// The state a machine starts a turn in.
pub open spec fn init_model() -> TurnModel {
    TurnModel {
        stage: ParseStage::AwaitingMyBaseUpdate,
        my_health: 0,
        my_mana: 0,
        enemy_health: 0,
        enemy_mana: 0,
        declared: 0,
        entities: Seq::empty(),
    }
}

/// One step of the turn machine: the state after reading `line`, and what
/// the step reports. A malformed line leaves the state unchanged; a ready
/// machine is never fed, so a step from readiness changes nothing.
pub open spec fn spec_feed(m: TurnModel, line: Seq<u8>) -> (TurnModel, Result<
    (),
    ProtocolViolation,
>) {
    let toks = spec_tokens(line);
    match m.stage {
        ParseStage::AwaitingMyBaseUpdate => if valid_pair_tokens(toks) {
            (
                TurnModel {
                    stage: ParseStage::AwaitingEnemyBaseUpdate,
                    my_health: u16_numeral_value(toks[0]) as u16,
                    my_mana: u16_numeral_value(toks[1]) as u16,
                    ..m
                },
                Ok(()),
            )
        } else {
            (m, Err(pair_violation(toks)))
        },
        ParseStage::AwaitingEnemyBaseUpdate => if valid_pair_tokens(toks) {
            (
                TurnModel {
                    stage: ParseStage::AwaitingEntityCount,
                    enemy_health: u16_numeral_value(toks[0]) as u16,
                    enemy_mana: u16_numeral_value(toks[1]) as u16,
                    ..m
                },
                Ok(()),
            )
        } else {
            (m, Err(pair_violation(toks)))
        },
        ParseStage::AwaitingEntityCount => if valid_single_tokens(toks) {
            let n = u16_numeral_value(toks[0]) as u16;
            (
                TurnModel {
                    stage: if n == 0 {
                        ParseStage::TurnReady
                    } else {
                        ParseStage::AwaitingEntityLines
                    },
                    declared: n,
                    entities: Seq::empty(),
                    ..m
                },
                Ok(()),
            )
        } else {
            (m, Err(single_violation(toks)))
        },
        ParseStage::AwaitingEntityLines => if valid_unit_tokens(toks) {
            let grown = m.entities.push(spec_unit_of(toks));
            (
                TurnModel {
                    stage: if grown.len() == m.declared {
                        ParseStage::TurnReady
                    } else {
                        ParseStage::AwaitingEntityLines
                    },
                    entities: grown,
                    ..m
                },
                Ok(()),
            )
        } else {
            (m, Err(unit_violation(toks)))
        },
        ParseStage::TurnReady => (m, Ok(())),
    }
}

/// The state of the turn machine after reading every line of `lines` in
/// order.
pub open spec fn spec_feed_all(m: TurnModel, lines: Seq<Seq<u8>>) -> TurnModel
    decreases lines.len(),
{
    if lines.len() == 0 {
        m
    } else {
        spec_feed_all(spec_feed(m, lines[0]).0, lines.drop_first())
    }
}

/// What every reachable machine state satisfies: while entity lines are
/// still awaited, fewer units than declared have been read, and a ready
/// machine holds exactly as many units as the count line declared.
pub open spec fn model_wf(m: TurnModel) -> bool {
    &&& (m.stage is AwaitingEntityLines ==> m.entities.len() < m.declared)
    &&& (m.stage is TurnReady ==> m.entities.len() == m.declared)
}

/// The turn machine that ingests one snapshot, one line per step.
pub struct TurnParser {
    pub stage: ParseStage,
    pub my_health: u16,
    pub my_mana: u16,
    pub enemy_health: u16,
    pub enemy_mana: u16,
    pub declared: u16,
    pub entities: Vec<Entity>,
}

impl View for TurnParser {
    type V = TurnModel;

    open spec fn view(&self) -> TurnModel {
        TurnModel {
            stage: self.stage,
            my_health: self.my_health,
            my_mana: self.my_mana,
            enemy_health: self.enemy_health,
            enemy_mana: self.enemy_mana,
            declared: self.declared,
            entities: self.entities@,
        }
    }
}

impl TurnParser {
    /// A machine awaiting the first line of a turn snapshot.
    pub fn new() -> (r: TurnParser)
        ensures
            r@ == init_model(),
    {
        let r = TurnParser {
            stage: ParseStage::AwaitingMyBaseUpdate,
            my_health: 0,
            my_mana: 0,
            enemy_health: 0,
            enemy_mana: 0,
            declared: 0,
            entities: Vec::new(),
        };
        proof {
            assert(r@.entities =~= init_model().entities);
        }
        r
    }

    /// Whether the whole snapshot has been read and the turn can be acted
    /// upon.
    pub fn is_ready(&self) -> (r: bool)
        ensures
            r == (self@.stage is TurnReady),
    {
        match self.stage {
            ParseStage::TurnReady => true,
            _ => false,
        }
    }

    /// Consume one snapshot line. The step is a pure function of the prior
    /// state and the line: the machine advances exactly as the transition
    /// model says, and a malformed line changes nothing.
    pub fn feed_line(&mut self, line: &Vec<u8>) -> (r: Result<(), ProtocolViolation>)
        requires
            !(old(self)@.stage is TurnReady),
        ensures
            final(self)@ == spec_feed(old(self)@, line@).0,
            r == spec_feed(old(self)@, line@).1,
    {
        let tokens = tokenize(line);
        match self.stage {
            ParseStage::AwaitingMyBaseUpdate => match parse_u16_pair(&tokens) {
                Ok((health, mana)) => {
                    self.my_health = health;
                    self.my_mana = mana;
                    self.stage = ParseStage::AwaitingEnemyBaseUpdate;
                    Ok(())
                },
                Err(e) => Err(e),
            },
            ParseStage::AwaitingEnemyBaseUpdate => match parse_u16_pair(&tokens) {
                Ok((health, mana)) => {
                    self.enemy_health = health;
                    self.enemy_mana = mana;
                    self.stage = ParseStage::AwaitingEntityCount;
                    Ok(())
                },
                Err(e) => Err(e),
            },
            ParseStage::AwaitingEntityCount => match parse_single_u16(&tokens) {
                Ok(n) => {
                    self.declared = n;
                    self.entities = Vec::new();
                    self.stage = if n == 0 {
                        ParseStage::TurnReady
                    } else {
                        ParseStage::AwaitingEntityLines
                    };
                    proof {
                        assert(self@.entities =~= Seq::<Entity>::empty());
                    }
                    Ok(())
                },
                Err(e) => Err(e),
            },
            ParseStage::AwaitingEntityLines => match Entity::new(&tokens) {
                Ok(unit) => {
                    self.entities.push(unit);
                    self.stage = if self.entities.len() == self.declared as usize {
                        ParseStage::TurnReady
                    } else {
                        ParseStage::AwaitingEntityLines
                    };
                    Ok(())
                },
                Err(e) => Err(e),
            },
            ParseStage::TurnReady => Ok(()),
        }
    }

    /// Reset the machine to await the next turn's snapshot; the base
    /// resource readings of the finished turn are kept until overwritten.
    pub fn reset(&mut self)
        ensures
            final(self)@ == (TurnModel {
                stage: ParseStage::AwaitingMyBaseUpdate,
                declared: 0,
                entities: Seq::empty(),
                ..old(self)@
            }),
    {
        self.stage = ParseStage::AwaitingMyBaseUpdate;
        self.declared = 0;
        self.entities = Vec::new();
        proof {
            assert(self@.entities =~= Seq::<Entity>::empty());
        }
    }
}

/// One step preserves well-formedness of the machine state.
pub proof fn lemma_feed_preserves_wf(m: TurnModel, line: Seq<u8>)
    requires
        model_wf(m),
    ensures
        model_wf(spec_feed(m, line).0),
{
}

/// Snapshot ingestion is a function of the lines alone: two machines in the
/// same state that read the same lines end in the same state, so parsing one
/// snapshot twice yields structurally identical base readings and unit
/// lists.
pub proof fn lemma_feed_all_deterministic(a: TurnModel, b: TurnModel, lines: Seq<Seq<u8>>)
    requires
        a == b,
    ensures
        spec_feed_all(a, lines) == spec_feed_all(b, lines),
{
}

/// No silent truncation: from the start of a turn, whatever lines arrive,
/// the machine reports the turn ready only once it has accepted exactly as
/// many entity lines as the count line declared; with fewer, it still awaits
/// input, and the missing lines surface as a protocol violation rather than
/// a short unit list.
pub proof fn lemma_no_silent_truncation(m: TurnModel, lines: Seq<Seq<u8>>)
    requires
        model_wf(m),
    ensures
        model_wf(spec_feed_all(m, lines)),
        spec_feed_all(m, lines).stage is TurnReady ==> spec_feed_all(m, lines).entities.len()
            == spec_feed_all(m, lines).declared,
    decreases lines.len(),
{
    if lines.len() > 0 {
        lemma_feed_preserves_wf(m, lines[0]);
        lemma_no_silent_truncation(spec_feed(m, lines[0]).0, lines.drop_first());
    }
}

/// The initial machine state is well-formed, so the truncation guarantee
/// holds of every turn parsed from the start.
pub proof fn lemma_init_model_wf()
    ensures
        model_wf(init_model()),
{
}

} // verus!
