use vstd::prelude::*;
use crate::exploration::{converted_normal, eval_direction, find_most_unvisited_zone, heading, map_converter_normal, most_unvisited, near_zombie, same_shape};
use crate::grid::{check_target, dims_fit_i32, i32_max, in_map, target_in_direction};
use crate::random::{blocked, random_free_pair, random_safe_direction, safe_choice_from, surrounded};
use crate::types::{Action, Content, DiscoverInfo, Direction, Error, RobertKnowledge, RobertStatus};

verus! {

/// What the planner is told of the moment: where Robert stands, his energy,
/// and whether routes come from the compass instead of charted paths.
#[derive(Clone, Copy, Debug)]
pub struct Situation {
    pub pos: (usize, usize),
    pub energy: usize,
    pub switch_tool: bool,
}

/// The weather announced for the next day, as far as the planner cares.
#[derive(Clone, Copy, Debug, PartialEq, Eq, Structural)]
pub enum Forecast {
    Sunny,
    Bad,
    Unavailable,
}

/// What a route is wanted for: fleeing to a shelter, or reaching water or
/// food.
#[derive(Clone, Copy, Debug, PartialEq, Eq)]
pub enum Goal {
    Escape { shelter: (usize, usize), origin: (usize, usize), side: (Direction, Option<Direction>) },
    Reach { target: (usize, usize), content: Content },
}

impl Goal {
    /// Where the route leads.
    pub open spec fn destination(self) -> (usize, usize) {
        match self {
            Goal::Escape { shelter, .. } => shelter,
            Goal::Reach { target, .. } => target,
        }
    }

    /// The route is planned for an escape.
    pub open spec fn escaping(self) -> bool {
        self is Escape
    }

    /// The side of the zombie that is fled, if any.
    pub open spec fn avoid(self) -> Option<(Direction, Option<Direction>)> {
        match self {
            Goal::Escape { side, .. } => Some(side),
            Goal::Reach { .. } => None,
        }
    }

    /// Its coordinates can be compared as `i32` numbers.
    pub open spec fn fits(self) -> bool {
        match self {
            Goal::Reach { target, .. } => target.0 <= i32_max() && target.1 <= i32_max(),
            Goal::Escape { .. } => true,
        }
    }
}

/// Outside work that the planner needs done before it can go on.
#[derive(Clone, Copy, Debug, PartialEq, Eq)]
pub enum Query {
    /// The closest known tile holding this kind of content.
    FindClosest(Content),
    /// The weather of the next day.
    PredictWeather,
    /// A shortest path between two tiles, on the map with the zombie tiles
    /// forgotten (`escape`) or with the tiles around them forgotten.
    ShortestPath { escape: bool, from: (usize, usize), to: (usize, usize) },
    /// The direction of the step from one tile to the next of a path.
    StepDirection { from: (usize, usize), to: (usize, usize) },
    /// The compass's move from `from` towards `to`, on a map prepared as for
    /// `ShortestPath`.
    CompassMove { escape: bool, from: (usize, usize), to: (usize, usize) },
}

/// Which answer a route waits for.
#[derive(Clone, Copy, Debug, PartialEq, Eq, Structural)]
pub enum Awaiting {
    Path,
    Step,
    Move,
}

/// Where the planner stands while it waits for an answer.
#[derive(Clone, Copy, Debug, PartialEq, Eq)]
pub enum Pending {
    /// The closest shelter for an escape; `fresh` when the escape has no
    /// direction yet.
    Shelter { fresh: bool, origin: (usize, usize), side: (Direction, Option<Direction>) },
    /// The closest water or market.
    Supply { content: Content },
    /// The forecast.
    Weather,
    /// A route towards the goal.
    Route { goal: Goal, awaiting: Awaiting },
}

/// The answer to a query.
#[derive(Clone, Debug, PartialEq, Eq)]
pub enum Reply {
    /// Found (the tile) or not.
    Closest(Option<(usize, usize)>),
    /// The forecast.
    Weather(Forecast),
    /// The path, from Robert's tile to the target, or none.
    Path(Option<Vec<(usize, usize)>>),
    /// A direction, or none when the tool gave an error.
    Direction(Option<Direction>),
}

/// What the planner comes to.
#[derive(Clone, Copy, Debug, PartialEq, Eq)]
pub enum Plan {
    /// The next action.
    Decided(Action),
    /// The query to answer, and where to resume with the answer.
    Ask(Query, Pending),
    /// Every way is blocked by zombies: drawing directions until two free
    /// ones come up never ends.
    Surrounded,
    /// The path held in memory has no step at its index.
    PathExhausted,
    /// The decision is not defined for this state.
    Failed(Error),
}

/// The action that going in `d` gives for `goal`.
pub open spec fn goal_action(pos: (usize, usize), goal: Goal, d: Direction) -> Action {
    match goal {
        Goal::Escape { origin, side, .. } => Action::ESCAPE(Some(d), origin, side),
        Goal::Reach { target, content } => if target_in_direction(pos, target, d) {
            Action::COLLECT(d, content)
        } else {
            Action::WalkToTarget(d, target, Some(content))
        },
    }
}

/// The first of up, left, right, down that is not the side to avoid.
pub open spec fn fallback(avoid: Option<(Direction, Option<Direction>)>) -> Direction {
    match avoid {
        Some(a) => if a.0 == Direction::Up {
            Direction::Left
        } else {
            Direction::Up
        },
        None => Direction::Up,
    }
}

/// Both memories know the same zombies and shelters.
pub open spec fn same_memory(a: RobertKnowledge, b: RobertKnowledge) -> bool {
    a.zombies@ == b.zombies@ && a.shelters@ == b.shelters@
}

/// `b` is `a` unchanged.
pub open spec fn unchanged(a: RobertKnowledge, b: RobertKnowledge) -> bool {
    same_memory(a, b) && b.route() == a.route() && b.path_index == a.path_index
}

/// Going on along `route` from step `index` towards `goal`, from memory `k`
/// to memory `k2`.
pub open spec fn path_followed(
    route: Option<Seq<(usize, usize)>>,
    index: usize,
    k2: RobertKnowledge,
    sit: Situation,
    goal: Goal,
    plan: Plan,
) -> bool {
    &&& k2.route() == route
    &&& match route {
        Some(p) => if p.len() == 1 {
            &&& k2.path_index == 0
            &&& exists|draws: Seq<Direction>|
                draws.len() == 6 && plan == Plan::Decided(
                    goal_action(sit.pos, goal, safe_choice_from(sit.pos, k2.zombies@, draws, 0)),
                )
        } else if index < p.len() {
            &&& k2.path_index == index
            &&& plan == Plan::Ask(
                Query::StepDirection { from: sit.pos, to: p[index as int] },
                Pending::Route { goal, awaiting: Awaiting::Step },
            )
        } else {
            k2.path_index == index && plan == Plan::PathExhausted
        },
        None => k2.path_index == 0 && plan == Plan::Decided(
            goal_action(sit.pos, goal, fallback(goal.avoid())),
        ),
    }
}

/// Starting a route towards `goal`: ask the compass, ask for a new path
/// (when `initialize` or when the index is zero), or go on along the path in
/// memory.
pub open spec fn route_started(
    k: RobertKnowledge,
    k2: RobertKnowledge,
    sit: Situation,
    goal: Goal,
    initialize: bool,
    plan: Plan,
) -> bool {
    if sit.switch_tool {
        &&& unchanged(k, k2)
        &&& plan == Plan::Ask(
            Query::CompassMove { escape: goal.escaping(), from: sit.pos, to: goal.destination() },
            Pending::Route { goal, awaiting: Awaiting::Move },
        )
    } else if initialize || k.path_index == 0 {
        &&& unchanged(k, k2)
        &&& plan == Plan::Ask(
            Query::ShortestPath { escape: goal.escaping(), from: sit.pos, to: goal.destination() },
            Pending::Route { goal, awaiting: Awaiting::Path },
        )
    } else {
        same_memory(k, k2) && path_followed(k.route(), k.path_index, k2, sit, goal, plan)
    }
}

/// The map with the zombies' tiles, and the tiles around them, forgotten.
pub open spec fn cleared_around(
    conv: Seq<Vec<Option<Content>>>,
    map: Seq<Vec<Option<Content>>>,
    zombies: Set<(usize, usize)>,
) -> bool {
    converted_normal(conv, map, zombies)
}

/// The zone to explore: the most unvisited one once the zombies' tiles and
/// the tiles around them are forgotten.
pub open spec fn exploring_target(
    map: Seq<Vec<Option<Content>>>,
    zombies: Set<(usize, usize)>,
    t: (usize, usize),
) -> bool {
    exists|conv: Seq<Vec<Option<Content>>>| cleared_around(conv, map, zombies) && most_unvisited(conv, t)
}

/// Two free directions drawn at random, or `Surrounded` when there are none.
pub open spec fn random_pair_plan(pos: (usize, usize), zombies: Set<(usize, usize)>, steps: usize, plan: Plan) -> bool {
    if surrounded(pos, zombies) {
        plan == Plan::Surrounded
    } else {
        exists|a: Direction, b: Direction|
            !blocked(pos, zombies, a) && !blocked(pos, zombies, b) && plan == Plan::Decided(
                Action::WalkDiscover((a, b), steps),
            )
    }
}

/// Exploring with energy to spare, depending on what was done before.
pub open spec fn explored(prev: Action, k: RobertKnowledge, map: Seq<Vec<Option<Content>>>, sit: Situation, plan: Plan) -> bool {
    let z = k.zombies@;
    match prev {
        Action::REST | Action::COLLECT(_, _) | Action::DISCOVER(_) => exists|t: (usize, usize)|
            exploring_target(map, z, t) && {
                let h = heading(sit.pos, t);
                if !blocked(sit.pos, z, h.0) && !blocked(sit.pos, z, h.1) {
                    plan == Plan::Decided(Action::WalkDiscover(h, 0))
                } else {
                    random_pair_plan(sit.pos, z, 0, plan)
                }
            },
        Action::WalkDiscover(_, steps) => if steps < 3 {
            exists|t: (usize, usize)|
                exploring_target(map, z, t) && plan == Plan::Decided(
                    Action::WalkDiscover(heading(sit.pos, t), steps),
                )
        } else {
            random_pair_plan(sit.pos, z, steps, plan)
        },
        _ => plan == Plan::Failed(Error::LogicError),
    }
}

/// Robert would rather eat than drink: his thirst times one and a half
/// exceeds his hunger.
pub open spec fn prefers_food(thirst: usize, hunger: usize) -> bool {
    3 * thirst > 2 * hunger
}

/// The content looked for when Robert is hungry or thirsty.
pub open spec fn wanted_supply(thirst: usize, hunger: usize) -> Content {
    if prefers_food(thirst, hunger) {
        Content::Market(0)
    } else {
        Content::Water(0)
    }
}

/// The content to collect on a walk to a target: the one known, else water.
pub open spec fn or_water(content: Option<Content>) -> Content {
    match content {
        Some(c) => c,
        None => Content::Water(1),
    }
}

/// The next action is planned from `status`, memory `k` (becoming `k2`),
/// `map` and `sit`. An escape comes first; then hunger and thirst; then, with
/// energy above 100, exploration (when energy is at most 450, only after a
/// forecast); else rest.
pub open spec fn planned(
    status: RobertStatus,
    k: RobertKnowledge,
    k2: RobertKnowledge,
    map: Seq<Vec<Option<Content>>>,
    sit: Situation,
    plan: Plan,
) -> bool {
    let prev = status.previous_action;
    let tile = map[sit.pos.0 as int]@[sit.pos.1 as int];
    if prev is ESCAPE && tile is Some {
        &&& unchanged(k, k2)
        &&& match prev {
            Action::ESCAPE(dir, origin, side) => if tile == Some(Content::Building) {
                plan == Plan::Decided(Action::REST)
            } else {
                plan == Plan::Ask(
                    Query::FindClosest(Content::Building),
                    Pending::Shelter { fresh: dir is None, origin, side },
                )
            },
            _ => false,
        }
    } else if status.thirst <= 70 || status.hunger <= 70 {
        match prev {
            Action::WalkToTarget(_, target, content) => route_started(
                k,
                k2,
                sit,
                Goal::Reach { target, content: or_water(content) },
                false,
                plan,
            ),
            _ => unchanged(k, k2) && {
                let c = wanted_supply(status.thirst, status.hunger);
                plan == Plan::Ask(Query::FindClosest(c), Pending::Supply { content: c })
            },
        }
    } else if sit.energy > 100 {
        if sit.energy > 450 {
            unchanged(k, k2) && explored(prev, k, map, sit, plan)
        } else {
            unchanged(k, k2) && plan == Plan::Ask(Query::PredictWeather, Pending::Weather)
        }
    } else {
        unchanged(k, k2) && plan == Plan::Decided(Action::REST)
    }
}

/// The answer fits the question that left the planner at `pending`.
pub open spec fn reply_fits(pending: Pending, reply: Reply) -> bool {
    match pending {
        Pending::Shelter { .. } | Pending::Supply { .. } => reply is Closest,
        Pending::Weather => reply is Weather,
        Pending::Route { awaiting, .. } => match awaiting {
            Awaiting::Path => reply is Path,
            _ => reply is Direction,
        },
    }
}

/// The planner goes on from `pending` with `reply`.
pub open spec fn resumed(
    status: RobertStatus,
    k: RobertKnowledge,
    k2: RobertKnowledge,
    map: Seq<Vec<Option<Content>>>,
    sit: Situation,
    pending: Pending,
    reply: Reply,
    plan: Plan,
) -> bool {
    &&& same_memory(k, k2)
    &&& match (pending, reply) {
        (Pending::Shelter { fresh, origin, side }, Reply::Closest(found)) => match found {
            Some(t) => route_started(k, k2, sit, Goal::Escape { shelter: t, origin, side }, fresh, plan),
            None => unchanged(k, k2) && plan == Plan::Decided(
                Action::ESCAPE(Some(fallback(Some(side))), origin, side),
            ),
        },
        (Pending::Supply { content }, Reply::Closest(found)) => match found {
            Some(t) => route_started(k, k2, sit, Goal::Reach { target: t, content }, true, plan),
            None => unchanged(k, k2) && plan == Plan::Decided(
                Action::DISCOVER(DiscoverInfo { content: Some(content), energy: sit.energy }),
            ),
        },
        (Pending::Weather, Reply::Weather(f)) => unchanged(k, k2) && if f == Forecast::Bad {
            plan == Plan::Decided(Action::DISCOVER(DiscoverInfo { content: None, energy: sit.energy / 4 }))
        } else {
            explored(status.previous_action, k, map, sit, plan)
        },
        (Pending::Route { goal, awaiting }, Reply::Path(p)) => {
            let route = match p {
                Some(v) => Some(v@),
                None => None,
            };
            path_followed(route, 1, k2, sit, goal, plan)
        },
        (Pending::Route { goal, awaiting }, Reply::Direction(d)) => match (awaiting, d) {
            (Awaiting::Step, Some(d)) => {
                let len = k.route().unwrap().len();
                &&& k2.route() == k.route()
                &&& k2.path_index == if k.path_index + 1 >= len {
                    len - 1
                } else {
                    k.path_index + 1
                }
                &&& plan == Plan::Decided(goal_action(sit.pos, goal, d))
            },
            (Awaiting::Step, None) => unchanged(k, k2) && plan == Plan::Decided(
                goal_action(sit.pos, goal, Direction::Up),
            ),
            (_, Some(d)) => unchanged(k, k2) && plan == Plan::Decided(goal_action(sit.pos, goal, d)),
            (_, None) => unchanged(k, k2) && plan == Plan::Decided(
                goal_action(sit.pos, goal, fallback(goal.avoid())),
            ),
        },
        _ => false,
    }
}

/// What exploring needs of the map and of the known zombies: a square map
/// whose sizes and zombie coordinates fit an `i32`.
pub open spec fn explore_ready(k: RobertKnowledge, map: Seq<Vec<Option<Content>>>) -> bool {
    &&& dims_fit_i32(map)
    &&& forall|i: int| 0 <= i < map.len() ==> #[trigger] map[i]@.len() >= map.len()
    &&& forall|i: int| 0 <= i < map.len() ==> #[trigger] map[i]@.len() + map.len() <= usize::MAX
    &&& forall|p: (usize, usize)| #[trigger]
        k.zombies@.contains(p) ==> p.0 < i32_max() && p.1 < i32_max()
}

/// The planning goes on to exploring without asking anything first.
pub open spec fn explores_at_once(status: RobertStatus, map: Seq<Vec<Option<Content>>>, sit: Situation) -> bool {
    &&& !(status.previous_action is ESCAPE && map[sit.pos.0 as int]@[sit.pos.1 as int] is Some)
    &&& status.thirst > 70
    &&& status.hunger > 70
    &&& sit.energy > 450
}

/// What the planner needs of its inputs: Robert's coordinates fit an `i32`,
/// the tile under an escaping Robert is on the map, and the target he walks
/// to has coordinates that fit an `i32`.
pub open spec fn planner_ready(
    status: RobertStatus,
    map: Seq<Vec<Option<Content>>>,
    sit: Situation,
) -> bool {
    &&& sit.pos.0 < i32_max()
    &&& sit.pos.1 < i32_max()
    &&& status.previous_action is ESCAPE ==> in_map(map, sit.pos.0 as int, sit.pos.1 as int)
    &&& match status.previous_action {
        Action::WalkToTarget(_, target, _) => target.0 <= i32_max() && target.1 <= i32_max(),
        _ => true,
    }
}

/// The action for going in `d` towards `goal`.
fn goal_action_of(pos: (usize, usize), goal: Goal, d: Direction) -> (a: Action)
    requires
        pos.0 < i32_max(),
        pos.1 < i32_max(),
        goal.fits(),
    ensures
        a == goal_action(pos, goal, d),
{
    match goal {
        Goal::Escape { origin, side, .. } => Action::ESCAPE(Some(d), origin, side),
        Goal::Reach { target, content } => {
            if check_target(pos, &target, &d) {
                Action::COLLECT(d, content)
            } else {
                Action::WalkToTarget(d, target, Some(content))
            }
        },
    }
}

/// The first of up, left, right, down that is not the side to avoid.
fn fallback_direction(avoid: Option<(Direction, Option<Direction>)>) -> (d: Direction)
    ensures
        d == fallback(avoid),
{
    // The first of up, left, right, down that differs from the side.
    match avoid {
        Some(a) => match a.0 {
            Direction::Up => Direction::Left,
            _ => Direction::Up,
        },
        None => Direction::Up,
    }
}

/// Goes on along the path in memory towards `goal`.
fn follow_path(knowledge: &mut RobertKnowledge, sit: &Situation, goal: Goal) -> (plan: Plan)
    requires
        sit.pos.0 < i32_max(),
        sit.pos.1 < i32_max(),
        goal.fits(),
    ensures
        same_memory(*old(knowledge), *final(knowledge)),
        path_followed(old(knowledge).route(), old(knowledge).path_index, *final(knowledge), *sit, goal, plan),
{
    let len_opt: Option<usize> = match &knowledge.path {
        Some(p) => Some(p.len()),
        None => None,
    };
    match len_opt {
        Some(len) => {
            if len == 1 {
                let direction = random_safe_direction(sit.pos, &knowledge.zombies);
                knowledge.path_index = 0;
                let a = goal_action_of(sit.pos, goal, direction);
                Plan::Decided(a)
            } else if knowledge.path_index < len {
                let next = match &knowledge.path {
                    Some(p) => p[knowledge.path_index],
                    None => (0, 0),
                };
                Plan::Ask(
                    Query::StepDirection { from: sit.pos, to: next },
                    Pending::Route { goal, awaiting: Awaiting::Step },
                )
            } else {
                Plan::PathExhausted
            }
        },
        None => {
            knowledge.path_index = 0;
            let d = fallback_direction(goal_avoid(goal));
            Plan::Decided(goal_action_of(sit.pos, goal, d))
        },
    }
}

/// The side of the zombie fled by `goal`, if any.
fn goal_avoid(goal: Goal) -> (a: Option<(Direction, Option<Direction>)>)
    ensures
        a == goal.avoid(),
{
    match goal {
        Goal::Escape { side, .. } => Some(side),
        Goal::Reach { .. } => None,
    }
}

/// Starts a route towards `goal` and gives the first direction, or the
/// query that the route needs answered first.
pub fn get_dir(knowledge: &mut RobertKnowledge, sit: &Situation, goal: Goal, initialize: bool) -> (plan: Plan)
    requires
        sit.pos.0 < i32_max(),
        sit.pos.1 < i32_max(),
        goal.fits(),
    ensures
        route_started(*old(knowledge), *final(knowledge), *sit, goal, initialize, plan),
{
    let (escape, to) = match goal {
        Goal::Escape { shelter, .. } => (true, shelter),
        Goal::Reach { target, .. } => (false, target),
    };
    if sit.switch_tool {
        Plan::Ask(
            Query::CompassMove { escape, from: sit.pos, to },
            Pending::Route { goal, awaiting: Awaiting::Move },
        )
    } else if initialize || knowledge.path_index == 0 {
        Plan::Ask(
            Query::ShortestPath { escape, from: sit.pos, to },
            Pending::Route { goal, awaiting: Awaiting::Path },
        )
    } else {
        follow_path(knowledge, sit, goal)
    }
}

/// A copy of the map.
fn copy_map(map: &Vec<Vec<Option<Content>>>) -> (c: Vec<Vec<Option<Content>>>)
    ensures
        c@.len() == map@.len(),
        forall|i: int| 0 <= i < map@.len() ==> #[trigger] c@[i]@ == map@[i]@,
{
    let mut c: Vec<Vec<Option<Content>>> = Vec::new();
    let mut i: usize = 0;
    while i < map.len()
        invariant
            i <= map@.len(),
            c@.len() == i,
            forall|a: int| 0 <= a < i ==> #[trigger] c@[a]@ == map@[a]@,
        decreases map@.len() - i,
    {
        let row = &map[i];
        let mut r: Vec<Option<Content>> = Vec::new();
        let mut j: usize = 0;
        while j < row.len()
            invariant
                j <= row@.len(),
                r@ == row@.subrange(0, j as int),
            decreases row@.len() - j,
        {
            r.push(row[j]);
            j = j + 1;
            assert(r@ =~= row@.subrange(0, j as int));
        }
        assert(r@ =~= row@);
        c.push(r);
        i = i + 1;
    }
    c
}

/// The zone to explore next.
fn unvisited_target(knowledge: &RobertKnowledge, map: &Vec<Vec<Option<Content>>>) -> (t: (usize, usize))
    requires
        dims_fit_i32(map@),
        forall|i: int| 0 <= i < map@.len() ==> #[trigger] map@[i]@.len() >= map@.len(),
        forall|i: int| 0 <= i < map@.len() ==> #[trigger] map@[i]@.len() + map@.len() <= usize::MAX,
        forall|p: (usize, usize)| #[trigger]
            knowledge.zombies@.contains(p) ==> p.0 < i32_max() && p.1 < i32_max(),
    ensures
        exploring_target(map@, knowledge.zombies@, t),
{
    let copy = copy_map(map);
    assert(dims_fit_i32(copy@));
    let conv = map_converter_normal(copy, &knowledge.zombies);
    assert(forall|i: int| 0 <= i < conv@.len() ==> #[trigger] conv@[i]@.len() == map@[i]@.len());
    let t = find_most_unvisited_zone(&conv);
    assert(cleared_around(conv@, map@, knowledge.zombies@)) by {
        assert forall|i: int, j: int| in_map(map@, i, j) implies #[trigger] conv@[i]@[j] == if near_zombie(knowledge.zombies@, i, j) {
            None
        } else {
            map@[i]@[j]
        } by {
            assert(in_map(copy@, i, j));
        }
    }
    t
}

/// Whether going in `dir` is free of known zombies.
fn free_way(pos: (usize, usize), knowledge: &RobertKnowledge, dir: Direction) -> (r: bool)
    requires
        pos.0 <= i32_max(),
        pos.1 <= i32_max(),
    ensures
        r == !blocked(pos, knowledge.zombies@, dir),
{
    !crate::exploration::check_cannot_go(pos, &knowledge.zombies, &dir).0
}

/// Two free directions drawn at random, with the count of ticks spent on the
/// same tile.
fn random_walk(pos: (usize, usize), knowledge: &RobertKnowledge, steps: usize) -> (plan: Plan)
    requires
        pos.0 <= i32_max(),
        pos.1 <= i32_max(),
    ensures
        random_pair_plan(pos, knowledge.zombies@, steps, plan),
{
    match random_free_pair(pos, &knowledge.zombies) {
        Some(pair) => Plan::Decided(Action::WalkDiscover(pair, steps)),
        None => Plan::Surrounded,
    }
}

/// Exploration with energy to spare.
fn explore(
    prev: Action,
    knowledge: &RobertKnowledge,
    map: &Vec<Vec<Option<Content>>>,
    sit: &Situation,
) -> (plan: Plan)
    requires
        sit.pos.0 < i32_max(),
        sit.pos.1 < i32_max(),
        dims_fit_i32(map@),
        forall|i: int| 0 <= i < map@.len() ==> #[trigger] map@[i]@.len() >= map@.len(),
        forall|i: int| 0 <= i < map@.len() ==> #[trigger] map@[i]@.len() + map@.len() <= usize::MAX,
        forall|p: (usize, usize)| #[trigger]
            knowledge.zombies@.contains(p) ==> p.0 < i32_max() && p.1 < i32_max(),
    ensures
        explored(prev, *knowledge, map@, *sit, plan),
{
    match prev {
        Action::REST | Action::COLLECT(_, _) | Action::DISCOVER(_) => {
            let target = unvisited_target(knowledge, map);
            let directions = eval_direction(sit.pos, target).0;
            let plan = if free_way(sit.pos, knowledge, directions.0) && free_way(
                sit.pos,
                knowledge,
                directions.1,
            ) {
                Plan::Decided(Action::WalkDiscover(directions, 0))
            } else {
                random_walk(sit.pos, knowledge, 0)
            };
            assert(exploring_target(map@, knowledge.zombies@, target));
            plan
        },
        Action::WalkDiscover(_, steps) => {
            if steps < 3 {
                let target = unvisited_target(knowledge, map);
                let directions = eval_direction(sit.pos, target).0;
                assert(exploring_target(map@, knowledge.zombies@, target));
                Plan::Decided(Action::WalkDiscover(directions, steps))
            } else {
                random_walk(sit.pos, knowledge, steps)
            }
        },
        _ => Plan::Failed(Error::LogicError),
    }
}

/// Decides Robert's next action from what he did last, his needs, his energy
/// and what he knows; hands out the outside work it needs on the way.
pub fn eval_next_ac(
    status: &RobertStatus,
    knowledge: &mut RobertKnowledge,
    map: &Vec<Vec<Option<Content>>>,
    sit: &Situation,
) -> (plan: Plan)
    requires
        planner_ready(*status, map@, *sit),
        explores_at_once(*status, map@, *sit) ==> explore_ready(*old(knowledge), map@),
    ensures
        planned(*status, *old(knowledge), *final(knowledge), map@, *sit, plan),
{
    // An escape goes before everything else.
    let prev = status.previous_action;
    match prev {
        Action::ESCAPE(dir, origin, side) => {
            match &map[sit.pos.0][sit.pos.1] {
                Some(t) => {
                    if *t == Content::Building {
                        // Robert is safe in a shelter and rests.
                        return Plan::Decided(Action::REST);
                    } else {
                        return Plan::Ask(
                            Query::FindClosest(Content::Building),
                            Pending::Shelter { fresh: dir.is_none(), origin, side },
                        );
                    }
                },
                None => {},
            }
        },
        _ => {},
    }
    if status.thirst <= 70 || status.hunger <= 70 {
        match prev {
            Action::WalkToTarget(_, target, content) => {
                let content = match content {
                    Some(c) => c,
                    None => Content::Water(1),
                };
                return get_dir(knowledge, sit, Goal::Reach { target, content }, false);
            },
            _ => {
                let prefers_food = (status.thirst as u128) * 3 > (status.hunger as u128) * 2;
                let content = if prefers_food {
                    Content::Market(0)
                } else {
                    Content::Water(0)
                };
                return Plan::Ask(Query::FindClosest(content), Pending::Supply { content });
            },
        }
    }
    if sit.energy > 100 {
        if sit.energy > 450 {
            explore(prev, knowledge, map, sit)
        } else {
            Plan::Ask(Query::PredictWeather, Pending::Weather)
        }
    } else {
        // Low energy: rest.
        Plan::Decided(Action::REST)
    }
}

/// Goes on planning from `pending` with the answer to its query.
pub fn resume_next_ac(
    status: &RobertStatus,
    knowledge: &mut RobertKnowledge,
    map: &Vec<Vec<Option<Content>>>,
    sit: &Situation,
    pending: Pending,
    reply: Reply,
) -> (plan: Plan)
    requires
        planner_ready(*status, map@, *sit),
        pending is Weather && !(reply matches Reply::Weather(Forecast::Bad)) ==> explore_ready(
            *old(knowledge),
            map@,
        ),
        reply_fits(pending, reply),
        reply matches Reply::Closest(Some(t)) ==> t.0 <= i32_max() && t.1 <= i32_max(),
        pending matches Pending::Route { goal, .. } ==> goal.fits(),
        pending matches Pending::Route { awaiting: Awaiting::Step, .. } ==> (old(knowledge).route() matches Some(p)
            && old(knowledge).path_index < p.len()),
    ensures
        resumed(*status, *old(knowledge), *final(knowledge), map@, *sit, pending, reply, plan),
{
    match (pending, reply) {
        (Pending::Shelter { fresh, origin, side }, Reply::Closest(found)) => match found {
            Some(t) => get_dir(knowledge, sit, Goal::Escape { shelter: t, origin, side }, fresh),
            None => {
                let d = fallback_direction(Some(side));
                Plan::Decided(Action::ESCAPE(Some(d), origin, side))
            },
        },
        (Pending::Supply { content }, Reply::Closest(found)) => match found {
            Some(t) => get_dir(knowledge, sit, Goal::Reach { target: t, content }, true),
            None => Plan::Decided(
                Action::DISCOVER(DiscoverInfo { content: Some(content), energy: sit.energy }),
            ),
        },
        (Pending::Weather, Reply::Weather(f)) => {
            if f == Forecast::Bad {
                Plan::Decided(Action::DISCOVER(DiscoverInfo { content: None, energy: sit.energy / 4 }))
            } else {
                explore(status.previous_action, knowledge, map, sit)
            }
        },
        (Pending::Route { goal, awaiting }, Reply::Path(p)) => {
            knowledge.path = p;
            knowledge.path_index = 1;
            follow_path(knowledge, sit, goal)
        },
        (Pending::Route { goal, awaiting }, Reply::Direction(d)) => match (awaiting, d) {
            (Awaiting::Step, Some(d)) => {
                let len: usize = match &knowledge.path {
                    Some(p) => p.len(),
                    None => 1,
                };
                knowledge.path_index = knowledge.path_index + 1;
                if knowledge.path_index >= len {
                    knowledge.path_index = len - 1;
                }
                Plan::Decided(goal_action_of(sit.pos, goal, d))
            },
            (Awaiting::Step, None) => Plan::Decided(goal_action_of(sit.pos, goal, Direction::Up)),
            (_, Some(d)) => Plan::Decided(goal_action_of(sit.pos, goal, d)),
            (_, None) => {
                let d = fallback_direction(goal_avoid(goal));
                Plan::Decided(goal_action_of(sit.pos, goal, d))
            },
        },
        _ => Plan::Failed(Error::LogicError),
    }
}

/// Whether the planning goes on to exploring without asking anything first.
pub fn explores_at_once_now(status: &RobertStatus, map: &Vec<Vec<Option<Content>>>, sit: &Situation) -> (b: bool)
    requires
        planner_ready(*status, map@, *sit),
    ensures
        b == explores_at_once(*status, map@, *sit),
{
    let escaping_on_known_tile = match status.previous_action {
        Action::ESCAPE(..) => map[sit.pos.0][sit.pos.1].is_some(),
        _ => false,
    };
    !escaping_on_known_tile && status.thirst > 70 && status.hunger > 70 && sit.energy > 450
}

/// Whether the map and the known zombies allow exploring.
pub fn explore_ready_now(knowledge: &RobertKnowledge, map: &Vec<Vec<Option<Content>>>) -> (b: bool)
    ensures
        b == explore_ready(*knowledge, map@),
{
    let dim = map.len();
    if dim > 0x7fff_ffff {
        return false;
    }
    let mut i: usize = 0;
    while i < dim
        invariant
            dim == map@.len(),
            dim <= i32_max(),
            i <= dim,
            forall|a: int| 0 <= a < i ==> #[trigger] map@[a]@.len() <= i32_max() && map@[a]@.len() >= dim
                && map@[a]@.len() + dim <= usize::MAX,
        decreases dim - i,
    {
        let len = map[i].len();
        if len > 0x7fff_ffff || len < dim || len > usize::MAX - dim {
            return false;
        }
        i = i + 1;
    }
    let zombies = knowledge.zombies.to_vec();
    let mut n: usize = 0;
    while n < zombies.len()
        invariant
            n <= zombies@.len(),
            zombies@.to_set() == knowledge.zombies@,
            forall|a: int| 0 <= a < n ==> #[trigger] zombies@[a].0 < i32_max() && zombies@[a].1 < i32_max(),
        decreases zombies@.len() - n,
    {
        let z = zombies[n];
        if z.0 >= 0x7fff_ffff || z.1 >= 0x7fff_ffff {
            assert(zombies@.contains(z));
            assert(zombies@.to_set().contains(z));
            assert(knowledge.zombies@.contains(z));
            return false;
        }
        n = n + 1;
    }
    assert forall|p: (usize, usize)| #[trigger] knowledge.zombies@.contains(p) implies p.0 < i32_max() && p.1 < i32_max() by {
        assert(zombies@.to_set().contains(p));
        let a = choose|a: int| 0 <= a < zombies@.len() && zombies@[a] == p;
    }
    true
}

} // verus!
