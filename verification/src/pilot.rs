//! The agent's moves: it walks in one direction for as long as the server
//! lets it, and turns to the next direction whenever a move is refused.

use vstd::prelude::*;

verus! {

/// A direction of movement, relative to where the agent faces.
#[derive(Debug, Clone, Copy, PartialEq, Eq, Structural)]
pub enum Direction {
    /// Straight ahead.
    Front,
    /// To the right.
    Right,
    /// Backwards.
    Back,
    /// To the left.
    Left,
}

/// What a message from the server means to the agent.
#[derive(Debug, Clone, Copy, PartialEq, Eq, Structural)]
pub enum Event {
    /// A radar view came: the server waits for a move.
    RadarView,
    /// The last move was refused.
    ActionError,
    /// Anything else.
    Unknown,
}

/// What the agent does about an event.
#[derive(Debug, Clone, Copy, PartialEq, Eq, Structural)]
pub enum Action {
    /// Send a move in this direction.
    MoveTo(Direction),
    /// Send nothing.
    Nothing,
}

/// The direction after a turn: front, right, back, left, and front again.
pub open spec fn turned(direction: Direction) -> Direction {
    match direction {
        Direction::Front => Direction::Right,
        Direction::Right => Direction::Back,
        Direction::Back => Direction::Left,
        Direction::Left => Direction::Front,
    }
}

/// The event that a message stands for, told by the keys it holds: a radar
/// view counts before a refusal.
pub open spec fn event_of(has_radar_view: bool, has_action_error: bool) -> Event {
    if has_radar_view {
        Event::RadarView
    } else if has_action_error {
        Event::ActionError
    } else {
        Event::Unknown
    }
}

/// The heading after `event`, and what to do about it: a radar view is
/// answered by a move along the heading, a refusal turns the agent, and
/// anything else changes nothing.
pub open spec fn next(heading: Direction, event: Event) -> (Direction, Action) {
    match event {
        Event::RadarView => (heading, Action::MoveTo(heading)),
        Event::ActionError => (turned(heading), Action::Nothing),
        Event::Unknown => (heading, Action::Nothing),
    }
}

impl Direction {
    /// The direction in which the agent sets out.
    pub fn initial() -> (direction: Direction)
        ensures
            direction == Direction::Front,
    {
        Direction::Front
    }

    /// The direction after a turn.
    pub fn turn(self) -> (direction: Direction)
        ensures
            direction == turned(self),
    {
        match self {
            Direction::Front => Direction::Right,
            Direction::Right => Direction::Back,
            Direction::Back => Direction::Left,
            Direction::Left => Direction::Front,
        }
    }

    /// The direction's name on the wire.
    pub fn name(self) -> (name: &'static str)
        ensures
            name@ == match self {
                Direction::Front => "Front"@,
                Direction::Right => "Right"@,
                Direction::Back => "Back"@,
                Direction::Left => "Left"@,
            },
    {
        match self {
            Direction::Front => "Front",
            Direction::Right => "Right",
            Direction::Back => "Back",
            Direction::Left => "Left",
        }
    }
}

/// Tells what a message stands for from the keys it holds.
pub fn classify(has_radar_view: bool, has_action_error: bool) -> (event: Event)
    ensures
        event == event_of(has_radar_view, has_action_error),
{
    if has_radar_view {
        Event::RadarView
    } else if has_action_error {
        Event::ActionError
    } else {
        Event::Unknown
    }
}

/// One step of the agent: the new heading and the action to perform.
pub fn step(heading: Direction, event: Event) -> (result: (Direction, Action))
    ensures
        result == next(heading, event),
{
    match event {
        Event::RadarView => (heading, Action::MoveTo(heading)),
        Event::ActionError => (heading.turn(), Action::Nothing),
        Event::Unknown => (heading, Action::Nothing),
    }
}

/// Four refusals in a row bring the agent back to the heading it had, and
/// fewer do not.
pub proof fn four_turns_come_full_circle(direction: Direction)
    ensures
        turned(turned(turned(turned(direction)))) == direction,
        turned(direction) != direction,
        turned(turned(direction)) != direction,
        turned(turned(turned(direction))) != direction,
{
}

/// The agent only ever moves along the heading it keeps.
pub proof fn moves_follow_the_heading(heading: Direction, event: Event)
    ensures
        next(heading, event).1 is MoveTo ==> next(heading, event) == (
            heading,
            Action::MoveTo(heading),
        ),
{
}

} // verus!
