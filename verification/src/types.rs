use vstd::prelude::*;
use crate::position_set::PositionSet;

verus! {

/// One of the four moves on the grid. `Up` lowers the row, `Left` lowers
/// the column.
#[derive(Clone, Copy, Debug, PartialEq, Eq, Structural)]
pub enum Direction {
    Up,
    Down,
    Left,
    Right,
}

/// What lies on a tile. Quantities are plain numbers; the ranges of bins,
/// crates and banks are given by their two bounds.
#[derive(Clone, Copy, Debug, PartialEq, Eq, Structural)]
pub enum Content {
    Rock(usize),
    Tree(usize),
    Garbage(usize),
    Fire,
    Coin(usize),
    Bin(usize, usize),
    Crate(usize, usize),
    Bank(usize, usize),
    Water(usize),
    Market(usize),
    Fish(usize),
    Building,
    Bush(usize),
    JollyBlock(usize),
    Scarecrow,
    Nothing,
}

/// The parameters of a search by the dog: what to look for (if anything)
/// and how much energy the search may spend.
#[derive(Clone, Copy, Debug, PartialEq, Eq, Structural)]
pub struct DiscoverInfo {
    pub content: Option<Content>,
    pub energy: usize,
}

/// What Robert does in a tick.
///
/// - `REST`: Robert is tired and sleeps.
/// - `WalkDiscover(dirs, n)`: Robert explores, walking along one of the two
///   directions; `n` counts the ticks he stayed on the same tile.
/// - `WalkToTarget(dir, target, content)`: Robert walks towards water or
///   food at `target`.
/// - `DISCOVER(info)`: Robert sends the dog to explore.
/// - `COLLECT(dir, content)`: the target is next to Robert in `dir`; he
///   drinks or eats.
/// - `ESCAPE(dir, zombie, side)`: Robert flees a zombie seen at `zombie`,
///   which stood towards `side`; `dir` is `None` while the way out is still
///   to be found.
#[derive(Clone, Copy, Debug, PartialEq, Eq)]
pub enum Action {
    REST,
    WalkDiscover((Direction, Direction), usize),
    WalkToTarget(Direction, (usize, usize), Option<Content>),
    DISCOVER(DiscoverInfo),
    COLLECT(Direction, Content),
    ESCAPE(Option<Direction>, (usize, usize), (Direction, Option<Direction>)),
}

/// Robert's bodily state and his plans.
pub struct RobertStatus {
    pub hunger: usize,
    pub thirst: usize,
    pub previous_action: Action,
    pub next_action: Action,
}

impl RobertStatus {
    /// A rested Robert whose first plan is to send the dog around.
    pub fn new() -> (s: RobertStatus)
        ensures
            s.hunger == 100,
            s.thirst == 100,
            s.previous_action == Action::REST,
            s.next_action == Action::DISCOVER(DiscoverInfo { content: None, energy: 500 }),
    {
        RobertStatus {
            hunger: 100,
            thirst: 100,
            previous_action: Action::REST,
            next_action: Action::DISCOVER(DiscoverInfo { content: None, energy: 500 }),
        }
    }
}

/// What Robert remembers of the world: where zombies and shelters are, and
/// the path he is following with the index of its next step.
pub struct RobertKnowledge {
    pub zombies: PositionSet,
    pub shelters: PositionSet,
    pub path: Option<Vec<(usize, usize)>>,
    pub path_index: usize,
}

impl RobertKnowledge {
    /// The path being followed, as a sequence.
    pub open spec fn route(&self) -> Option<Seq<(usize, usize)>> {
        match self.path {
            Some(p) => Some(p@),
            None => None,
        }
    }

    /// Knows nothing yet; holds an empty path whose next step is index 1.
    pub fn new() -> (k: RobertKnowledge)
        ensures
            k.zombies@ == Set::<(usize, usize)>::empty(),
            k.shelters@ == Set::<(usize, usize)>::empty(),
            k.path matches Some(p) && p@.len() == 0,
            k.path_index == 1,
    {
        RobertKnowledge {
            zombies: PositionSet::new(),
            shelters: PositionSet::new(),
            path: Some(Vec::new()),
            path_index: 1,
        }
    }
}

/// The two ways the simulation gives up.
#[derive(Clone, Copy, Debug, PartialEq, Eq, Structural)]
pub enum Error {
    CollectError,
    LogicError,
}

/// The text with which the simulation stops on `err`.
pub open spec fn termination_message(err: Error) -> Seq<char> {
    match err {
        Error::CollectError => "Terminate with errorCollectError"@,
        Error::LogicError => "Terminate with errorLogicError"@,
    }
}

/// The message with which the simulation stops on `err`; the caller then
/// halts with it.
pub fn terminate_with_error(err: Error) -> (message: String)
    ensures
        message@ == termination_message(err),
{
    match err {
        Error::CollectError => String::from_str("Terminate with errorCollectError"),
        Error::LogicError => String::from_str("Terminate with errorLogicError"),
    }
}

} // verus!
