//! The two code tables: a 2-bit code names a passage, a 4-bit code names what
//! a cell holds. Both tables are total: a code without a meaning of its own
//! reads as `Undefined`.

use vstd::prelude::*;
use vstd::std_specs::convert::FromSpecImpl;

verus! {

/// State of one wall segment between two neighbouring cells.
#[derive(Debug, Clone, Copy, PartialEq, Eq, Structural)]
pub enum Passage {
    /// Not visible from where the agent stands.
    Undefined,
    /// The agent can walk through.
    Open,
    /// Closed by a wall.
    Wall,
}

/// What one visible cell holds: a terrain marker (plain, hint or goal)
/// combined with an occupant (nobody, ally, enemy or monster).
#[derive(Debug, Clone, Copy, PartialEq, Eq, Structural)]
pub enum RadarItem {
    /// Plain cell, nobody on it.
    Empty,
    /// Plain cell with an ally.
    Ally,
    /// Plain cell with an enemy.
    Enemy,
    /// Plain cell with a monster.
    Monster,
    /// Hint, nobody on it.
    Hint,
    /// Hint with an ally.
    HintWithAlly,
    /// Hint with an enemy.
    HintWithEnemy,
    /// Hint with a monster.
    HintWithMonster,
    /// Goal, nobody on it.
    Goal,
    /// Goal with an ally.
    GoalWithAlly,
    /// Goal with an enemy.
    GoalWithEnemy,
    /// Goal with a monster.
    GoalWithMonster,
    /// No information, or a code without a meaning.
    Undefined,
}

/// The passage that a code stands for: 1 is open, 2 is a wall, anything else
/// is undefined.
pub open spec fn passage_of(code: u8) -> Passage {
    if code == 1 {
        Passage::Open
    } else if code == 2 {
        Passage::Wall
    } else {
        Passage::Undefined
    }
}

/// The cell content that a code stands for. Codes 0 to 11 are read as
/// terrain (code / 4) and occupant (code % 4); every other code is undefined.
pub open spec fn item_of(code: u8) -> RadarItem {
    if code == 0 {
        RadarItem::Empty
    } else if code == 1 {
        RadarItem::Ally
    } else if code == 2 {
        RadarItem::Enemy
    } else if code == 3 {
        RadarItem::Monster
    } else if code == 4 {
        RadarItem::Hint
    } else if code == 5 {
        RadarItem::HintWithAlly
    } else if code == 6 {
        RadarItem::HintWithEnemy
    } else if code == 7 {
        RadarItem::HintWithMonster
    } else if code == 8 {
        RadarItem::Goal
    } else if code == 9 {
        RadarItem::GoalWithAlly
    } else if code == 10 {
        RadarItem::GoalWithEnemy
    } else if code == 11 {
        RadarItem::GoalWithMonster
    } else {
        RadarItem::Undefined
    }
}

/// Both tables are total, and a code that names nothing reads as undefined:
/// for a passage every code but 1 and 2, for a cell every code from 12 on.
pub proof fn unmapped_codes_are_undefined(code: u8)
    ensures
        code != 1 && code != 2 ==> passage_of(code) == Passage::Undefined,
        passage_of(code) == Passage::Undefined ==> code != 1 && code != 2,
        code >= 12 ==> item_of(code) == RadarItem::Undefined,
        item_of(code) == RadarItem::Undefined ==> code >= 12,
{
}

/// Within their range the tables tell codes apart: two passage codes among
/// 1 and 2, or two cell codes below 12, that read alike are the same code.
pub proof fn mapped_codes_are_distinct(a: u8, b: u8)
    ensures
        1 <= a <= 2 && 1 <= b <= 2 && passage_of(a) == passage_of(b) ==> a == b,
        a < 12 && b < 12 && item_of(a) == item_of(b) ==> a == b,
{
}

impl From<u8> for Passage {
    fn from(value: u8) -> (passage: Passage) {
        match value {
            1 => Passage::Open,
            2 => Passage::Wall,
            _ => Passage::Undefined,
        }
    }
}

impl FromSpecImpl<u8> for Passage {
    open spec fn obeys_from_spec() -> bool {
        true
    }

    open spec fn from_spec(value: u8) -> Passage {
        passage_of(value)
    }
}

impl From<u8> for RadarItem {
    fn from(value: u8) -> (item: RadarItem) {
        match value {
            0 => RadarItem::Empty,
            1 => RadarItem::Ally,
            2 => RadarItem::Enemy,
            3 => RadarItem::Monster,
            4 => RadarItem::Hint,
            5 => RadarItem::HintWithAlly,
            6 => RadarItem::HintWithEnemy,
            7 => RadarItem::HintWithMonster,
            8 => RadarItem::Goal,
            9 => RadarItem::GoalWithAlly,
            10 => RadarItem::GoalWithEnemy,
            11 => RadarItem::GoalWithMonster,
            _ => RadarItem::Undefined,
        }
    }
}

impl FromSpecImpl<u8> for RadarItem {
    open spec fn obeys_from_spec() -> bool {
        true
    }

    open spec fn from_spec(value: u8) -> RadarItem {
        item_of(value)
    }
}

} // verus!
