use vstd::prelude::*;
use crate::exploration::{block_tile, converted_normal, most_unvisited, next_to_any, reads_before, same_shape, watched_tile, zone_score};
use crate::grid::{i32_max, direction_between, in_map, neighbour, seen, target_in_direction, zombie_alarm};
use crate::planner::{fallback, goal_action, planned, resumed, Awaiting, Goal, Pending, Plan, Query, Reply, Situation};
use crate::random::{blocked, free_list, free_upto, roll_direction, safe_choice_from};
use crate::rocket_data::counted;
use crate::tick::{fate_of, stop_for, stops, walk_ended, Failure, Fate, WalkReport};
use crate::types::{Action, Content, Direction, RobertKnowledge, RobertStatus};

verus! {

/// Escaping comes before everything: when Robert was escaping and does not
/// stand on a building, the planner looks for the closest shelter, whatever
/// his hunger, thirst and energy.
pub proof fn law_escape_comes_first(
    status: RobertStatus,
    k: RobertKnowledge,
    k2: RobertKnowledge,
    map: Seq<Vec<Option<Content>>>,
    sit: Situation,
    plan: Plan,
    c: Content,
)
    requires
        planned(status, k, k2, map, sit, plan),
        status.previous_action is ESCAPE,
        map[sit.pos.0 as int]@[sit.pos.1 as int] == Some(c),
        c != Content::Building,
    ensures
        plan matches Plan::Ask(Query::FindClosest(Content::Building), Pending::Shelter { .. }),
{
}

/// An escape ends in a shelter: an escaping Robert who stands on a building
/// rests.
pub proof fn law_shelter_ends_escape(
    status: RobertStatus,
    k: RobertKnowledge,
    k2: RobertKnowledge,
    map: Seq<Vec<Option<Content>>>,
    sit: Situation,
    plan: Plan,
)
    requires
        planned(status, k, k2, map, sit, plan),
        status.previous_action is ESCAPE,
        map[sit.pos.0 as int]@[sit.pos.1 as int] == Some(Content::Building),
    ensures
        plan == Plan::Decided(Action::REST),
{
}

/// A Robert who is neither escaping, hungry nor thirsty rests when his
/// energy is 100 or less.
pub proof fn law_low_energy_rests(
    status: RobertStatus,
    k: RobertKnowledge,
    k2: RobertKnowledge,
    map: Seq<Vec<Option<Content>>>,
    sit: Situation,
    plan: Plan,
)
    requires
        planned(status, k, k2, map, sit, plan),
        !(status.previous_action is ESCAPE),
        status.thirst > 70,
        status.hunger > 70,
        sit.energy <= 100,
    ensures
        plan == Plan::Decided(Action::REST),
{
}

/// A hungry or thirsty Robert who is not escaping or already walking to a
/// target first asks where the closest market or water is.
pub proof fn law_needs_come_before_exploring(
    status: RobertStatus,
    k: RobertKnowledge,
    k2: RobertKnowledge,
    map: Seq<Vec<Option<Content>>>,
    sit: Situation,
    plan: Plan,
)
    requires
        planned(status, k, k2, map, sit, plan),
        !(status.previous_action is ESCAPE),
        !(status.previous_action is WalkToTarget),
        status.thirst <= 70 || status.hunger <= 70,
    ensures
        plan matches Plan::Ask(Query::FindClosest(_), Pending::Supply { .. }),
{
}

/// A zombie seen after a step makes Robert flee: once the step is taken and
/// a zombie stands next to him, the next plan looks for a shelter to reach
/// from scratch, remembering where the zombie was.
pub proof fn law_zombie_sighting_starts_escape(
    status: RobertStatus,
    status2: RobertStatus,
    k: RobertKnowledge,
    k2: RobertKnowledge,
    k3: RobertKnowledge,
    map: Seq<Vec<Option<Content>>>,
    sit: Situation,
    report: WalkReport,
    plan: Plan,
)
    requires
        walk_ended(status, status2, k, k2, map, sit.pos, Ok(()), report),
        report.zombie_alarm,
        map[sit.pos.0 as int]@[sit.pos.1 as int] is Some,
        planned(status2, k2, k3, map, sit, plan),
    ensures
        plan == Plan::Ask(
            Query::FindClosest(Content::Building),
            Pending::Shelter {
                fresh: true,
                origin: zombie_alarm(map, sit.pos).2,
                side: zombie_alarm(map, sit.pos).1.unwrap(),
            },
        ),
{
}

/// Fleeing without a known shelter never heads to the side of the zombie.
pub proof fn law_fallback_avoids_zombie(side: (Direction, Option<Direction>))
    ensures
        fallback(Some(side)) != side.0,
{
}

/// A target next to Robert in the chosen direction is collected, not walked
/// to.
pub proof fn law_adjacent_target_is_collected(
    pos: (usize, usize),
    target: (usize, usize),
    content: Content,
    d: Direction,
)
    requires
        target_in_direction(pos, target, d),
    ensures
        goal_action(pos, Goal::Reach { target, content }, d) == Action::COLLECT(d, content),
{
}

/// The direction that `calculate_direction` gives for a tile next to Robert
/// in a straight line is the direction in which `check_target` finds it.
pub proof fn law_direction_finds_neighbour(pos: (usize, usize), t: (usize, usize))
    requires
        (t.0 == pos.0 && (t.1 == pos.1 + 1 || t.1 + 1 == pos.1)) || (t.1 == pos.1 && (t.0 == pos.0
            + 1 || t.0 + 1 == pos.0)),
    ensures
        direction_between(pos, t).1 is None,
        target_in_direction(pos, t, direction_between(pos, t).0),
{
}

/// The tile checked for a zombie before a step is the tile the step
/// reaches, in every direction.
pub proof fn law_step_check_looks_ahead(pos: (usize, usize), t: (usize, usize), d: Direction)
    requires
        pos.0 <= i32_max(),
        pos.1 <= i32_max(),
    ensures
        watched_tile(pos, d) == Some(t) <==> target_in_direction(pos, t, d),
{
}

/// Looking around only adds to what Robert knows of zombies and shelters.
pub proof fn law_knowledge_only_grows(
    k: RobertKnowledge,
    k2: RobertKnowledge,
    map: Seq<Vec<Option<Content>>>,
    pos: (usize, usize),
    around: bool,
)
    requires
        k2.zombies@ == k.zombies@.union(seen(map, pos, around, Content::Scarecrow)),
        k2.shelters@ == k.shelters@.union(seen(map, pos, around, Content::Building)),
    ensures
        k.zombies@.subset_of(k2.zombies@),
        k.shelters@.subset_of(k2.shelters@),
{
}

/// The zone to explore is determined by the map: two tiles that both meet
/// its description are the same.
pub proof fn law_unvisited_zone_is_unique<T>(map: Seq<Vec<Option<T>>>, a: (usize, usize), b: (usize, usize))
    requires
        most_unvisited(map, a),
        most_unvisited(map, b),
    ensures
        a == b,
{
    if a != b {
        if zone_score(map, a.0 as int, a.1 as int) > 0 && zone_score(map, b.0 as int, b.1 as int) > 0 {
            if reads_before((a.0 as int, a.1 as int), (b.0 as int, b.1 as int)) {
                assert(zone_score(map, a.0 as int, a.1 as int) < zone_score(map, b.0 as int, b.1 as int));
            } else {
                assert(reads_before((b.0 as int, b.1 as int), (a.0 as int, a.1 as int)));
                assert(zone_score(map, b.0 as int, b.1 as int) < zone_score(map, a.0 as int, a.1 as int));
            }
        } else if zone_score(map, a.0 as int, a.1 as int) > 0 {
            assert(zone_score(map, a.0 as int, a.1 as int) == 0);
        } else if zone_score(map, b.0 as int, b.1 as int) > 0 {
            assert(zone_score(map, b.0 as int, b.1 as int) == 0);
        }
    }
}

/// A search by the dog for water, a market or a building stops at a tile
/// holding that kind of content.
pub proof fn law_search_stops_at_what_it_seeks(c: Content, found: Content)
    requires
        c is Water || c is Market || c is Building,
        (c is Water && found is Water) || (c is Market && found is Market) || (c is Building
            && found is Building),
    ensures
        stops(stop_for(Some(c)), found),
{
}

/// Robert dies when he runs out of water or food: with thirst 2 or less, or
/// hunger 3 or less, no tick leaves him alive.
pub proof fn law_runs_out_dies(thirst: usize, hunger: usize)
    ensures
        fate_of(thirst, hunger) == Fate::Alive <==> thirst > 2 && hunger > 3,
{
}

/// A refused step for lack of energy makes Robert rest.
pub proof fn law_tired_step_rests(
    status: RobertStatus,
    status2: RobertStatus,
    k: RobertKnowledge,
    k2: RobertKnowledge,
    map: Seq<Vec<Option<Content>>>,
    pos: (usize, usize),
    report: WalkReport,
)
    requires
        walk_ended(status, status2, k, k2, map, pos, Err(Failure::NotEnoughEnergy), report),
    ensures
        report.decided == Some(Action::REST),
{
}

/// Setting out to explore after resting, collecting or sending the dog,
/// Robert only picks directions that no known zombie blocks.
pub proof fn law_fresh_exploration_avoids_zombies(
    status: RobertStatus,
    k: RobertKnowledge,
    k2: RobertKnowledge,
    map: Seq<Vec<Option<Content>>>,
    sit: Situation,
    plan: Plan,
    a: Direction,
    b: Direction,
    steps: usize,
)
    requires
        planned(status, k, k2, map, sit, plan),
        status.previous_action is REST || status.previous_action is COLLECT
            || status.previous_action is DISCOVER,
        status.thirst > 70,
        status.hunger > 70,
        sit.energy > 450,
        plan == Plan::Decided(Action::WalkDiscover((a, b), steps)),
    ensures
        !blocked(sit.pos, k.zombies@, a),
        !blocked(sit.pos, k.zombies@, b),
{
}

/// Looking twice changes nothing more than looking once, and a look around
/// Robert learns no more than a look at the whole map.
pub proof fn law_looking_again_changes_nothing(
    k: RobertKnowledge,
    k2: RobertKnowledge,
    k3: RobertKnowledge,
    whole: RobertKnowledge,
    map: Seq<Vec<Option<Content>>>,
    pos: (usize, usize),
    around: bool,
)
    requires
        k2.zombies@ == k.zombies@.union(seen(map, pos, around, Content::Scarecrow)),
        k2.shelters@ == k.shelters@.union(seen(map, pos, around, Content::Building)),
        k3.zombies@ == k2.zombies@.union(seen(map, pos, around, Content::Scarecrow)),
        k3.shelters@ == k2.shelters@.union(seen(map, pos, around, Content::Building)),
        whole.zombies@ == k.zombies@.union(seen(map, pos, false, Content::Scarecrow)),
        whole.shelters@ == k.shelters@.union(seen(map, pos, false, Content::Building)),
    ensures
        k3.zombies@ == k2.zombies@,
        k3.shelters@ == k2.shelters@,
        k2.zombies@.subset_of(whole.zombies@),
        k2.shelters@.subset_of(whole.shelters@),
{
    assert(k3.zombies@ =~= k2.zombies@);
    assert(k3.shelters@ =~= k2.shelters@);
}

/// Converting a map twice for the same zombies gives the map converted once.
pub proof fn law_conversion_is_idempotent<T>(
    m: Seq<Vec<Option<T>>>,
    r1: Seq<Vec<Option<T>>>,
    r2: Seq<Vec<Option<T>>>,
    positions: Set<(usize, usize)>,
)
    requires
        converted_normal(r1, m, positions),
        converted_normal(r2, r1, positions),
    ensures
        same_shape(r2, r1),
        forall|i: int, j: int| #![trigger r2[i]@[j]] in_map(r1, i, j) ==> r2[i]@[j] == r1[i]@[j],
{
    assert forall|i: int, j: int| #![trigger r2[i]@[j]] in_map(r1, i, j) implies r2[i]@[j] == r1[i]@[j] by {
        assert(in_map(m, i, j));
    }
}

/// Zombies whose tile and surroundings all lie off the map change nothing.
pub proof fn law_far_zombies_change_nothing<T>(
    m: Seq<Vec<Option<T>>>,
    r: Seq<Vec<Option<T>>>,
    positions: Set<(usize, usize)>,
)
    requires
        m.len() <= usize::MAX,
        converted_normal(r, m, positions),
        forall|p: (usize, usize), k: int|
            positions.contains(p) && 0 <= k < 9 ==> !in_map(m, #[trigger] block_tile(p, k).0, block_tile(p, k).1),
    ensures
        forall|i: int, j: int| #![trigger r[i]@[j]] in_map(m, i, j) ==> r[i]@[j] == m[i]@[j],
{
    assert forall|i: int, j: int| #![trigger r[i]@[j]] in_map(m, i, j) implies r[i]@[j] == m[i]@[j] by {
        assert(m[i]@.len() == m[i].len());
        if positions.contains((i as usize, j as usize)) {
            let p = (i as usize, j as usize);
            assert(block_tile(p, 0) == (i, j));
            assert(!in_map(m, block_tile(p, 0).0, block_tile(p, 0).1));
        }
        if next_to_any(positions, i, j) {
            let (p, k) = choose|p: (usize, usize), k: int|
                positions.contains(p) && 0 <= k < 8 && #[trigger] neighbour(p, k) == (i, j);
            assert(block_tile(p, k + 1) == (i, j));
            assert(!in_map(m, block_tile(p, k + 1).0, block_tile(p, k + 1).1));
        }
        assert(!crate::exploration::near_zombie(positions, i, j));
    }
}

/// The escape under way, if any, that a pending question belongs to: it was
/// left with this origin and side.
pub open spec fn escape_consistent(prev: Action, pending: Pending) -> bool {
    match pending {
        Pending::Shelter { origin, side, .. } => prev matches Action::ESCAPE(_, o, s) && o == origin
            && s == side,
        Pending::Route { goal: Goal::Escape { origin, side, .. }, .. } => prev matches Action::ESCAPE(
            _,
            o,
            s,
        ) && o == origin && s == side,
        _ => true,
    }
}

/// Planning never starts an escape: what it decides is no escape, and a
/// question it asks belongs to the escape under way, if any.
pub proof fn law_planning_starts_no_escape(
    status: RobertStatus,
    k: RobertKnowledge,
    k2: RobertKnowledge,
    map: Seq<Vec<Option<Content>>>,
    sit: Situation,
    plan: Plan,
)
    requires
        planned(status, k, k2, map, sit, plan),
    ensures
        !(plan matches Plan::Decided(Action::ESCAPE(..))),
        plan matches Plan::Ask(_, p) ==> escape_consistent(status.previous_action, p),
{
    match status.previous_action {
        Action::WalkToTarget(_, target, content) => {
            let goal = Goal::Reach { target, content: crate::planner::or_water(content) };
            if exists|d: Direction| plan == Plan::Decided(goal_action(sit.pos, goal, d)) {
                let d = choose|d: Direction| plan == Plan::Decided(goal_action(sit.pos, goal, d));
            }
        },
        _ => {},
    }
}

/// Resuming goes on with the escape under way and nothing else: an escape it
/// decides has a direction and keeps the origin and side of the escape it
/// continues, and a question it asks belongs to that escape.
pub proof fn law_resuming_continues_the_escape(
    status: RobertStatus,
    k: RobertKnowledge,
    k2: RobertKnowledge,
    map: Seq<Vec<Option<Content>>>,
    sit: Situation,
    pending: Pending,
    reply: Reply,
    plan: Plan,
)
    requires
        resumed(status, k, k2, map, sit, pending, reply, plan),
        escape_consistent(status.previous_action, pending),
    ensures
        plan matches Plan::Ask(_, p) ==> escape_consistent(status.previous_action, p),
        plan matches Plan::Decided(Action::ESCAPE(d, o, a)) ==> (d is Some
            && (status.previous_action matches Action::ESCAPE(_, o2, a2) && o2 == o && a2 == a)),
{
    let goal: Option<Goal> = match (pending, reply) {
        (Pending::Shelter { origin, side, .. }, Reply::Closest(Some(t))) => Some(
            Goal::Escape { shelter: t, origin, side },
        ),
        (Pending::Supply { content }, Reply::Closest(Some(t))) => Some(Goal::Reach { target: t, content }),
        (Pending::Route { goal, .. }, _) => Some(goal),
        _ => None,
    };
    if goal is Some {
        let g = goal.unwrap();
        if exists|d: Direction| plan == Plan::Decided(goal_action(sit.pos, g, d)) {
            let d = choose|d: Direction| plan == Plan::Decided(goal_action(sit.pos, g, d));
        }
    }
    if pending is Weather {
        if exists|a: Direction, b: Direction| plan == Plan::Decided(Action::WalkDiscover((a, b), 0)) {
            let (a, b) = choose|a: Direction, b: Direction| plan == Plan::Decided(Action::WalkDiscover((a, b), 0));
        }
    }
}

/// Stepping along a remembered path keeps the path, moves the index one step
/// on but no further than the last step, and goes up when the step has no
/// direction.
pub proof fn law_stepping_keeps_the_path(
    status: RobertStatus,
    k: RobertKnowledge,
    k2: RobertKnowledge,
    map: Seq<Vec<Option<Content>>>,
    sit: Situation,
    goal: Goal,
    d: Option<Direction>,
    plan: Plan,
    p: Seq<(usize, usize)>,
)
    requires
        resumed(status, k, k2, map, sit, Pending::Route { goal, awaiting: Awaiting::Step }, Reply::Direction(d), plan),
        k.route() == Some(p),
        p.len() >= 2,
        1 <= k.path_index < p.len(),
    ensures
        k2.route() == Some(p),
        1 <= k2.path_index <= p.len() - 1,
        match d {
            Some(dir) => k2.path_index == if k.path_index + 1 <= p.len() - 1 {
                k.path_index + 1
            } else {
                p.len() - 1
            } && plan == Plan::Decided(goal_action(sit.pos, goal, dir)),
            None => k2.path_index == k.path_index && plan == Plan::Decided(
                goal_action(sit.pos, goal, Direction::Up),
            ),
        },
{
}

/// A hungry or thirsty Robert who was walking to a target goes on towards
/// that same target for the same content: water only when the content was
/// not known. Whatever he decides is collecting that content or walking on
/// to that target for it, and a question he asks is about a route to it.
pub proof fn law_walk_keeps_its_content(
    status: RobertStatus,
    k: RobertKnowledge,
    k2: RobertKnowledge,
    map: Seq<Vec<Option<Content>>>,
    sit: Situation,
    plan: Plan,
    target: (usize, usize),
    content: Option<Content>,
)
    requires
        planned(status, k, k2, map, sit, plan),
        status.previous_action matches Action::WalkToTarget(_, t, c) && t == target && c == content,
        status.thirst <= 70 || status.hunger <= 70,
    ensures
        ({
            let want = match content {
                Some(c) => c,
                None => Content::Water(1),
            };
            &&& plan matches Plan::Decided(a) ==> ((a matches Action::COLLECT(_, c2) && c2 == want)
                || (a matches Action::WalkToTarget(_, t2, Some(c2)) && t2 == target && c2 == want))
            &&& plan matches Plan::Ask(_, p) ==> (p matches Pending::Route { goal, .. } && goal
                == Goal::Reach { target, content: want })
        }),
{
    let want = match content {
        Some(c) => c,
        None => Content::Water(1),
    };
    let goal = Goal::Reach { target, content: want };
    if exists|draws: Seq<Direction>|
        draws.len() == 6 && plan == Plan::Decided(
            goal_action(sit.pos, goal, safe_choice_from(sit.pos, k2.zombies@, draws, 0)),
        ) {
        let draws = choose|draws: Seq<Direction>|
            draws.len() == 6 && plan == Plan::Decided(
                goal_action(sit.pos, goal, safe_choice_from(sit.pos, k2.zombies@, draws, 0)),
            );
    }
}

/// A market or water found for Robert becomes the goal of his route, for
/// that very content: the planner asks for a route to the tile found, and
/// the goal it keeps is to reach that tile for what was searched. When
/// nothing is found, the dog is sent for that same content.
pub proof fn law_found_supply_is_the_goal(
    status: RobertStatus,
    k: RobertKnowledge,
    k2: RobertKnowledge,
    map: Seq<Vec<Option<Content>>>,
    sit: Situation,
    content: Content,
    found: Option<(usize, usize)>,
    plan: Plan,
)
    requires
        resumed(status, k, k2, map, sit, Pending::Supply { content }, Reply::Closest(found), plan),
    ensures
        found matches Some(t) ==> (plan matches Plan::Ask(q, Pending::Route { goal, awaiting })
            && goal == Goal::Reach { target: t, content }
            && ((q == Query::ShortestPath { escape: false, from: sit.pos, to: t } && awaiting == Awaiting::Path)
            || (q == Query::CompassMove { escape: false, from: sit.pos, to: t } && awaiting == Awaiting::Move))),
        found is None ==> plan == Plan::Decided(
            Action::DISCOVER(crate::types::DiscoverInfo { content: Some(content), energy: sit.energy }),
        ),
{
}

/// Going on along a route to a target yields collecting the content the
/// route is for, or walking on to that target for it; a question asked on
/// the way keeps the same goal.
pub proof fn law_route_reaches_its_goal(
    status: RobertStatus,
    k: RobertKnowledge,
    k2: RobertKnowledge,
    map: Seq<Vec<Option<Content>>>,
    sit: Situation,
    target: (usize, usize),
    content: Content,
    awaiting: Awaiting,
    reply: Reply,
    plan: Plan,
)
    requires
        resumed(
            status,
            k,
            k2,
            map,
            sit,
            (Pending::Route { goal: (Goal::Reach { target, content }), awaiting }),
            reply,
            plan,
        ),
    ensures
        plan matches Plan::Decided(a) ==> ((a matches Action::COLLECT(_, c2) && c2 == content)
            || (a matches Action::WalkToTarget(_, t2, Some(c2)) && t2 == target && c2 == content)),
        plan matches Plan::Ask(_, p) ==> (p matches Pending::Route { goal, .. } && goal == (Goal::Reach {
            target,
            content,
        })),
{
    let goal = Goal::Reach { target, content };
    if exists|draws: Seq<Direction>|
        draws.len() == 6 && plan == Plan::Decided(
            goal_action(sit.pos, goal, safe_choice_from(sit.pos, k2.zombies@, draws, 0)),
        ) {
        let draws = choose|draws: Seq<Direction>|
            draws.len() == 6 && plan == Plan::Decided(
                goal_action(sit.pos, goal, safe_choice_from(sit.pos, k2.zombies@, draws, 0)),
            );
    }
}

/// Of six draws, the direction kept is one of them, every draw before it is
/// blocked, and it is itself free unless it is the sixth: a blocked
/// direction is kept only when all six draws are blocked.
pub proof fn law_safe_step_is_first_free_draw(
    pos: (usize, usize),
    zombies: Set<(usize, usize)>,
    draws: Seq<Direction>,
)
    requires
        draws.len() == 6,
    ensures
        exists|k: int|
            0 <= k < 6 && safe_choice_from(pos, zombies, draws, 0) == draws[k] && (forall|j: int|
                0 <= j < k ==> blocked(pos, zombies, #[trigger] draws[j])) && (k < 5 ==> !blocked(
                pos,
                zombies,
                draws[k],
            )),
        blocked(pos, zombies, safe_choice_from(pos, zombies, draws, 0)) ==> forall|j: int|
            0 <= j < 6 ==> blocked(pos, zombies, #[trigger] draws[j]),
{
    lemma_safe_choice_from(pos, zombies, draws, 0);
}

proof fn lemma_safe_choice_from(pos: (usize, usize), zombies: Set<(usize, usize)>, draws: Seq<Direction>, from: int)
    requires
        draws.len() == 6,
        0 <= from <= 5,
    ensures
        exists|k: int|
            from <= k < 6 && safe_choice_from(pos, zombies, draws, from) == draws[k] && (forall|j: int|
                from <= j < k ==> blocked(pos, zombies, #[trigger] draws[j])) && (k < 5 ==> !blocked(
                pos,
                zombies,
                draws[k],
            )),
        blocked(pos, zombies, safe_choice_from(pos, zombies, draws, from)) ==> forall|j: int|
            from <= j < 6 ==> blocked(pos, zombies, #[trigger] draws[j]),
    decreases 5 - from,
{
    if from == 5 {
        assert(safe_choice_from(pos, zombies, draws, 5) == draws[5]);
    } else if !blocked(pos, zombies, draws[from]) {
        assert(safe_choice_from(pos, zombies, draws, from) == draws[from]);
    } else {
        lemma_safe_choice_from(pos, zombies, draws, from + 1);
        let k = choose|k: int|
            from + 1 <= k < 6 && safe_choice_from(pos, zombies, draws, from + 1) == draws[k] && (forall|j: int|
                from + 1 <= j < k ==> blocked(pos, zombies, #[trigger] draws[j])) && (k < 5 ==> !blocked(
                pos,
                zombies,
                draws[k],
            ));
        assert(forall|j: int| from <= j < k ==> blocked(pos, zombies, #[trigger] draws[j]));
    }
}

/// The free directions are exactly those no known zombie blocks, each once,
/// and every pair of free directions is what some two draws pick: any free
/// direction can come out as either member of a pair.
pub proof fn law_every_free_pair_is_drawable(
    pos: (usize, usize),
    zombies: Set<(usize, usize)>,
    x: Direction,
    y: Direction,
)
    ensures
        forall|d: Direction| free_list(pos, zombies).contains(d) <==> !blocked(pos, zombies, d),
        free_list(pos, zombies).no_duplicates(),
        !blocked(pos, zombies, x) && !blocked(pos, zombies, y) ==> exists|a: int, b: int|
            0 <= a < free_list(pos, zombies).len() && 0 <= b < free_list(pos, zombies).len()
                && free_list(pos, zombies)[a] == x && free_list(pos, zombies)[b] == y,
{
    lemma_free_upto(pos, zombies, 4);
    let f = free_list(pos, zombies);
    assert forall|d: Direction| f.contains(d) <==> !blocked(pos, zombies, d) by {
        let s: usize = match d {
            Direction::Up => 0,
            Direction::Down => 1,
            Direction::Right => 2,
            Direction::Left => 3,
        };
        assert(roll_direction(s) == d);
    }
    if !blocked(pos, zombies, x) && !blocked(pos, zombies, y) {
        assert(f.contains(x));
        assert(f.contains(y));
    }
}

proof fn lemma_free_upto(pos: (usize, usize), zombies: Set<(usize, usize)>, r: int)
    requires
        0 <= r <= 4,
    ensures
        forall|d: Direction| free_upto(pos, zombies, r).contains(d) <==> exists|s: usize|
            s < r && roll_direction(s) == d && !blocked(pos, zombies, d),
        free_upto(pos, zombies, r).no_duplicates(),
    decreases r,
{
    if r > 0 {
        lemma_free_upto(pos, zombies, r - 1);
        let f = free_upto(pos, zombies, r - 1);
        let d0 = roll_direction((r - 1) as usize);
        assert forall|d: Direction| free_upto(pos, zombies, r).contains(d) <==> exists|s: usize|
            s < r && roll_direction(s) == d && !blocked(pos, zombies, d) by {
            if free_upto(pos, zombies, r).contains(d) {
                if f.contains(d) {
                } else {
                    assert(d == d0);
                    assert(roll_direction((r - 1) as usize) == d);
                }
            }
            if exists|s: usize| s < r && roll_direction(s) == d && !blocked(pos, zombies, d) {
                let s = choose|s: usize| s < r && roll_direction(s) == d && !blocked(pos, zombies, d);
                if s < r - 1 {
                    assert(f.contains(d));
                    if !blocked(pos, zombies, d0) {
                        assert(f.push(d0)[f.index_of(d)] == d);
                    }
                } else {
                    assert(f.push(d0)[f.len() as int] == d0);
                }
            }
        }
        if !blocked(pos, zombies, d0) {
            assert(!f.contains(d0)) by {
                if f.contains(d0) {
                    let s = choose|s: usize| s < r - 1 && roll_direction(s) == d0 && !blocked(pos, zombies, d0);
                    assert(roll_direction(s) != roll_direction((r - 1) as usize));
                }
            }
            assert(f.push(d0).no_duplicates()) by {
                assert forall|i: int, j: int| 0 <= i < f.len() + 1 && 0 <= j < f.len() + 1 && i != j
                    implies f.push(d0)[i] != f.push(d0)[j] by {
                    if i == f.len() {
                        assert(f.contains(f[j]));
                    } else if j == f.len() {
                        assert(f.contains(f[i]));
                    }
                }
            }
        }
    }
}

/// The report counts an escape at index 2 and a search by the dog at index
/// 3: counting an escape and then a search adds one to each of these and
/// leaves every other count as it was.
pub proof fn law_escape_and_search_slots(
    v0: Seq<usize>,
    v1: Seq<usize>,
    v2: Seq<usize>,
    escape: Action,
    search: Action,
)
    requires
        v0.len() >= 6,
        v0[2] < usize::MAX,
        v0[3] < usize::MAX,
        escape is ESCAPE,
        search is DISCOVER,
        counted(v0, v1, escape),
        counted(v1, v2, search),
    ensures
        v2.len() == v0.len(),
        v2[2] == v0[2] + 1,
        v2[3] == v0[3] + 1,
        forall|i: int| 0 <= i < v0.len() && i != 2 && i != 3 ==> v2[i] == v0[i],
{
}

} // verus!
