//! Directions, actions and the states of an animation.
//!
//! The sprites of a figure lie in its archive action by action, and within
//! an action direction by direction. The numbers here say where each action
//! starts and how many frames it has for each direction.

use vstd::prelude::*;

verus! {

/// The state of an animation.
#[derive(PartialEq, Eq, Clone, Copy, Debug, Structural)]
pub enum EasingStatus {
    /// At its start, not running yet.
    Ready,
    /// Running, and starting over whenever it reaches its end.
    Run,
    /// Held where it is.
    Pause,
    /// Running to its end, then held at its start.
    PauseStart,
    /// Running to its end, then held there.
    PauseFinish,
    /// Ended.
    Stop,
}

/// How an animation's clock is moved on by a span of time.
#[derive(PartialEq, Eq, Clone, Copy, Debug, Structural)]
pub enum Advance {
    /// The clock moves on and starts over past the end.
    Wrapping,
    /// The clock moves on and stops at the end.
    Once,
    /// The clock does not move.
    Still,
}

/// Where an animation's clock is put once a run to the end is over.
#[derive(PartialEq, Eq, Clone, Copy, Debug, Structural)]
pub enum Rewind {
    /// To the start.
    Start,
    /// To the end.
    Finish,
    /// Nowhere: it stays where it is.
    Stay,
}

impl Default for EasingStatus {
    fn default() -> (status: Self)
        ensures
            status == EasingStatus::Ready,
    {
        EasingStatus::Ready
    }
}

impl EasingStatus {
    /// How the clock of an animation in this state is moved on.
    pub fn advance(&self) -> (advance: Advance)
        ensures
            advance == match *self {
                EasingStatus::Run => Advance::Wrapping,
                EasingStatus::PauseStart => Advance::Wrapping,
                EasingStatus::PauseFinish => Advance::Once,
                _ => Advance::Still,
            },
    {
        match self {
            EasingStatus::Run => Advance::Wrapping,
            EasingStatus::PauseStart => Advance::Wrapping,
            EasingStatus::PauseFinish => Advance::Once,
            _ => Advance::Still,
        }
    }

    /// Settles the state after the clock has been moved on. `ended` tells
    /// whether the clock reached the end. An animation that was running to
    /// its end is then held, and its clock is to be put where its state
    /// wanted it. Every other animation goes on as it is.
    pub fn settle(&mut self, ended: bool) -> (rewind: Rewind)
        ensures
            rewind == if ended && *old(self) == EasingStatus::PauseStart {
                Rewind::Start
            } else if ended && *old(self) == EasingStatus::PauseFinish {
                Rewind::Finish
            } else {
                Rewind::Stay
            },
            *final(self) == if rewind == Rewind::Stay {
                *old(self)
            } else {
                EasingStatus::Pause
            },
    {
        if !ended {
            return Rewind::Stay;
        }
        match self {
            EasingStatus::PauseStart => {
                *self = EasingStatus::Pause;
                Rewind::Start
            },
            EasingStatus::PauseFinish => {
                *self = EasingStatus::Pause;
                Rewind::Finish
            },
            _ => Rewind::Stay,
        }
    }
}

/// One of the eight directions in which a figure looks and moves, clockwise
/// from north.
#[derive(Copy, Clone, Debug, Ord, PartialOrd, Eq, PartialEq)]
pub enum Direction {
    North,
    Northeast,
    East,
    Southeast,
    South,
    Southwest,
    West,
    Northwest,
}

impl Default for Direction {
    fn default() -> (direction: Self)
        ensures
            direction == Direction::East,
    {
        Direction::East
    }
}

impl Direction {
    /// The place of a direction among the eight, north being 0.
    pub open spec fn place(self) -> u32 {
        match self {
            Direction::North => 0,
            Direction::Northeast => 1,
            Direction::East => 2,
            Direction::Southeast => 3,
            Direction::South => 4,
            Direction::Southwest => 5,
            Direction::West => 6,
            Direction::Northwest => 7,
        }
    }

    /// The direction of a sector of the compass. The sectors are numbered
    /// from 1, which is north, clockwise to 8; every other number stands for
    /// north as well.
    pub fn from(dir_of_8: u32) -> (direction: Self)
        ensures
            1 <= dir_of_8 <= 8 ==> direction.place() == dir_of_8 - 1,
            !(1 <= dir_of_8 <= 8) ==> direction == Direction::North,
    {
        match dir_of_8 {
            1 => Direction::North,
            2 => Direction::Northeast,
            3 => Direction::East,
            4 => Direction::Southeast,
            5 => Direction::South,
            6 => Direction::Southwest,
            7 => Direction::West,
            8 => Direction::Northwest,
            _ => Direction::North,
        }
    }

    /// The place of the direction among the eight, north being 0.
    pub fn offset(&self) -> (offset: u32)
        ensures
            offset == self.place(),
    {
        match self {
            Direction::North => 0,
            Direction::Northeast => 1,
            Direction::East => 2,
            Direction::Southeast => 3,
            Direction::South => 4,
            Direction::Southwest => 5,
            Direction::West => 6,
            Direction::Northwest => 7,
        }
    }

    /// One step in the direction, in tiles: to the east and to the south.
    pub fn unit(&self) -> (step: (i32, i32))
        ensures
            step == match *self {
                Direction::North => (0i32, -1i32),
                Direction::Northeast => (1i32, -1i32),
                Direction::East => (1i32, 0i32),
                Direction::Southeast => (1i32, 1i32),
                Direction::South => (0i32, 1i32),
                Direction::Southwest => (-1i32, 1i32),
                Direction::West => (-1i32, 0i32),
                Direction::Northwest => (-1i32, -1i32),
            },
    {
        match self {
            Direction::North => (0, -1),
            Direction::Northeast => (1, -1),
            Direction::East => (1, 0),
            Direction::Southeast => (1, 1),
            Direction::South => (0, 1),
            Direction::Southwest => (-1, 1),
            Direction::West => (-1, 0),
            Direction::Northwest => (-1, -1),
        }
    }
}

/// What a figure is doing.
#[derive(Copy, Clone, Debug, Ord, PartialOrd, Eq, PartialEq)]
pub enum PlayerAction {
    Stand,
    Walk,
    Run,
    WarMode,
    Hit,
    HeavyHit,
    BigHit,
    Spell,
    SitDown,
    Damage,
    Die,
}

impl Default for PlayerAction {
    fn default() -> (action: Self)
        ensures
            action == PlayerAction::Stand,
    {
        PlayerAction::Stand
    }
}

impl PlayerAction {
    /// The number of frames that the action has for one direction.
    pub open spec fn frames(self) -> u32 {
        match self {
            PlayerAction::Stand => 4,
            PlayerAction::Walk => 6,
            PlayerAction::Run => 6,
            PlayerAction::WarMode => 1,
            PlayerAction::Hit => 6,
            PlayerAction::HeavyHit => 6,
            PlayerAction::BigHit => 8,
            PlayerAction::Spell => 6,
            PlayerAction::SitDown => 2,
            PlayerAction::Damage => 3,
            PlayerAction::Die => 4,
        }
    }

    /// The number of sprites that lie before the action's first.
    pub open spec fn first(self) -> u32 {
        match self {
            PlayerAction::Stand => 0,
            PlayerAction::Walk => 32,
            PlayerAction::Run => 80,
            PlayerAction::WarMode => 128,
            PlayerAction::Hit => 136,
            PlayerAction::HeavyHit => 184,
            PlayerAction::BigHit => 232,
            PlayerAction::Spell => 296,
            PlayerAction::SitDown => 344,
            PlayerAction::Damage => 360,
            PlayerAction::Die => 384,
        }
    }

    /// The number of frames that the action has for one direction.
    pub fn step(&self) -> (frames: u32)
        ensures
            frames == self.frames(),
    {
        match self {
            PlayerAction::Stand => 4,
            PlayerAction::Walk => 6,
            PlayerAction::Run => 6,
            PlayerAction::WarMode => 1,
            PlayerAction::Hit => 6,
            PlayerAction::HeavyHit => 6,
            PlayerAction::BigHit => 8,
            PlayerAction::Spell => 6,
            PlayerAction::SitDown => 2,
            PlayerAction::Damage => 3,
            PlayerAction::Die => 4,
        }
    }

    /// The number of frames that the action's effect has for one direction:
    /// as many as the action, but eight for standing.
    pub fn effect_step(&self) -> (frames: u32)
        ensures
            frames == if *self == PlayerAction::Stand {
                8
            } else {
                self.frames()
            },
    {
        match self {
            PlayerAction::Stand => 8,
            _ => self.step(),
        }
    }

    /// The number of sprites that lie before the action's first.
    pub fn jump(&self) -> (first: u32)
        ensures
            first == self.first(),
    {
        match self {
            PlayerAction::Stand => 0,
            PlayerAction::Walk => 32,
            PlayerAction::Run => 80,
            PlayerAction::WarMode => 128,
            PlayerAction::Hit => 136,
            PlayerAction::HeavyHit => 184,
            PlayerAction::BigHit => 232,
            PlayerAction::Spell => 296,
            PlayerAction::SitDown => 344,
            PlayerAction::Damage => 360,
            PlayerAction::Die => 384,
        }
    }

    /// The number of sprites that lie before the first of the action's
    /// effect: 32 more than before the action's own, but none for standing.
    pub fn effect_jump(&self) -> (first: u32)
        ensures
            first == if *self == PlayerAction::Stand {
                0
            } else {
                self.first() + 32
            },
    {
        match self {
            PlayerAction::Stand => 0,
            _ => self.jump() + 32,
        }
    }

    /// The state in which the animation of the action starts: dying runs to
    /// its end and is held there, everything else runs over and over.
    pub fn easing_status(&self) -> (status: EasingStatus)
        ensures
            status == if *self == PlayerAction::Die {
                EasingStatus::PauseFinish
            } else {
                EasingStatus::Run
            },
    {
        match self {
            PlayerAction::Die => EasingStatus::PauseFinish,
            _ => EasingStatus::Run,
        }
    }
}

} // verus!
