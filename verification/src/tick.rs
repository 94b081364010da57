use vstd::prelude::*;
use crate::grid::{dims_fit_i32, i32_max, in_map, seen, update_knowledge, check_for_zombies, zombie_alarm};
use crate::random::pick_walk_direction;
use crate::types::{Action, Content, Direction, Error, RobertKnowledge, RobertStatus};

verus! {

/// What ends a search by the dog early: nothing, or finding water, a market
/// or a building.
#[derive(Clone, Copy, Debug, PartialEq, Eq, Structural)]
pub enum SearchStop {
    Never,
    Water,
    Market,
    Building,
}

/// The stop that suits a search for `content`.
pub open spec fn stop_for(content: Option<Content>) -> SearchStop {
    match content {
        Some(Content::Water(_)) => SearchStop::Water,
        Some(Content::Market(_)) => SearchStop::Market,
        Some(Content::Building) => SearchStop::Building,
        _ => SearchStop::Never,
    }
}

/// The search stops on a tile holding `c`.
pub open spec fn stops(stop: SearchStop, c: Content) -> bool {
    match stop {
        SearchStop::Never => false,
        SearchStop::Water => c is Water,
        SearchStop::Market => c is Market,
        SearchStop::Building => c is Building,
    }
}

/// The stop that suits a search for `content`.
pub fn search_stop(content: Option<Content>) -> (s: SearchStop)
    ensures
        s == stop_for(content),
{
    match content {
        Some(Content::Water(_)) => SearchStop::Water,
        Some(Content::Market(_)) => SearchStop::Market,
        Some(Content::Building) => SearchStop::Building,
        _ => SearchStop::Never,
    }
}

/// Whether a search with `stop` ends on a tile holding `c`.
pub fn stops_at(stop: SearchStop, c: &Content) -> (r: bool)
    ensures
        r == stops(stop, *c),
{
    match stop {
        SearchStop::Never => false,
        SearchStop::Water => matches!(c, Content::Water(_)),
        SearchStop::Market => matches!(c, Content::Market(_)),
        SearchStop::Building => matches!(c, Content::Building),
    }
}

/// Outside work that carrying out an action takes.
#[derive(Clone, Copy, Debug, PartialEq, Eq)]
pub enum Chore {
    /// Nothing to do in the world.
    Nothing,
    /// One step.
    Walk(Direction),
    /// The dog searches around Robert (ten tiles far) with this much energy.
    Discover { budget: usize, stop: SearchStop },
    /// Drinking the water next to Robert.
    Drink(Direction),
}

/// How the world refused a step or a collection.
#[derive(Clone, Copy, Debug, PartialEq, Eq, Structural)]
pub enum Failure {
    NotEnoughEnergy,
    Other,
}

/// What a step led to: whether a zombie is now next to Robert, and the next
/// action if the step decided it.
#[derive(Clone, Copy, Debug, PartialEq, Eq)]
pub struct WalkReport {
    pub zombie_alarm: bool,
    pub decided: Option<Action>,
}

/// The chore of an action, and the status it leaves.
pub open spec fn action_started(old: RobertStatus, new: RobertStatus, chore: Chore) -> bool {
    &&& new.next_action == old.next_action
    &&& new.thirst == old.thirst
    &&& match old.next_action {
        Action::REST => new.hunger == old.hunger && new.previous_action == Action::REST && chore
            == Chore::Nothing,
        Action::WalkDiscover(dirs, _) => new.hunger == old.hunger && new.previous_action
            == old.previous_action && (chore == Chore::Walk(dirs.0) || chore == Chore::Walk(dirs.1)),
        Action::DISCOVER(info) => new.hunger == old.hunger && new.previous_action == Action::DISCOVER(
            info,
        ) && chore == Chore::Discover { budget: info.energy, stop: stop_for(info.content) },
        Action::COLLECT(dir, c) => new.previous_action == Action::COLLECT(dir, c) && match c {
            Content::Water(_) => new.hunger == old.hunger && chore == Chore::Drink(dir),
            Content::Market(_) => new.hunger == old.hunger + 150 && chore == Chore::Nothing,
            _ => new.hunger == old.hunger && chore == Chore::Nothing,
        },
        Action::ESCAPE(dir, z, side) => new.hunger == old.hunger && new.previous_action
            == Action::ESCAPE(dir, z, side) && chore == Chore::Walk(dir.unwrap()),
        Action::WalkToTarget(d, t, c) => new.hunger == old.hunger && new.previous_action
            == Action::WalkToTarget(d, t, c) && chore == Chore::Walk(d),
    }
}

/// Starts carrying out the next action: records it as the previous one
/// (a walk to discover does so once the step is over), eats at a market, and
/// gives the outside work to do. A walk to discover goes, at random, in one of
/// its two directions.
pub fn start_action(status: &mut RobertStatus) -> (chore: Chore)
    requires
        old(status).next_action matches Action::ESCAPE(dir, _, _) ==> dir is Some,
        old(status).next_action matches Action::COLLECT(_, Content::Market(_)) ==> old(status).hunger
            + 150 <= usize::MAX,
    ensures
        action_started(*old(status), *final(status), chore),
{
    let next_action = status.next_action;
    match next_action {
        Action::REST => {
            status.previous_action = Action::REST;
            Chore::Nothing
        },
        Action::WalkDiscover(dirs, _) => {
            let direction = pick_walk_direction(dirs);
            Chore::Walk(direction)
        },
        Action::DISCOVER(info) => {
            status.previous_action = Action::DISCOVER(info);
            Chore::Discover { budget: info.energy, stop: search_stop(info.content) }
        },
        Action::COLLECT(dir, content) => {
            status.previous_action = Action::COLLECT(dir, content);
            match content {
                Content::Water(_) => Chore::Drink(dir),
                Content::Market(_) => {
                    status.hunger = status.hunger + 150;
                    Chore::Nothing
                },
                _ => Chore::Nothing,
            }
        },
        Action::ESCAPE(dir, zombie, side) => {
            status.previous_action = Action::ESCAPE(dir, zombie, side);
            match dir {
                Some(d) => Chore::Walk(d),
                None => Chore::Nothing,
            }
        },
        Action::WalkToTarget(direction, target, content) => {
            status.previous_action = Action::WalkToTarget(direction, target, content);
            Chore::Walk(direction)
        },
    }
}

/// The action is a step: a walk to discover, an escape or a walk to a
/// target.
pub open spec fn is_walk(a: Action) -> bool {
    a is WalkDiscover || a is ESCAPE || a is WalkToTarget
}

/// What a step leaves: on success, the knowledge of the tiles around Robert
/// and an escape from a zombie next to him; on failure, a rest when energy
/// ran out.
pub open spec fn walk_ended(
    old: RobertStatus,
    new: RobertStatus,
    k: RobertKnowledge,
    k2: RobertKnowledge,
    map: Seq<Vec<Option<Content>>>,
    pos: (usize, usize),
    outcome: Result<(), Failure>,
    report: WalkReport,
) -> bool {
    &&& new.next_action == old.next_action
    &&& new.hunger == old.hunger
    &&& new.thirst == old.thirst
    &&& k2.route() == k.route()
    &&& k2.path_index == k.path_index
    &&& match outcome {
        Ok(_) => {
            let walked = match old.next_action {
                Action::WalkDiscover(dirs, _) => Action::WalkDiscover(dirs, 0),
                _ => old.previous_action,
            };
            let alarm = zombie_alarm(map, pos);
            &&& k2.zombies@ == k.zombies@.union(seen(map, pos, true, Content::Scarecrow))
            &&& k2.shelters@ == k.shelters@.union(seen(map, pos, true, Content::Building))
            &&& report == WalkReport { zombie_alarm: alarm.0, decided: None }
            &&& new.previous_action == if alarm.0 {
                Action::ESCAPE(None, alarm.2, alarm.1.unwrap())
            } else {
                walked
            }
        },
        Err(f) => {
            &&& k2.zombies@ == k.zombies@
            &&& k2.shelters@ == k.shelters@
            &&& new.previous_action == match old.next_action {
                Action::WalkDiscover(dirs, steps) => Action::WalkDiscover(dirs, (steps + 1) as usize),
                _ => old.previous_action,
            }
            &&& report == WalkReport {
                zombie_alarm: false,
                decided: if f == Failure::NotEnoughEnergy {
                    Some(Action::REST)
                } else {
                    None
                },
            }
        },
    }
}

/// Takes the outcome of a step. After a step Robert looks around him,
/// notes zombies and shelters, and flees a zombie next to him; a walk to
/// discover restarts its count of ticks on one tile. A refused step adds one
/// to that count, and a lack of energy makes him rest.
pub fn after_walk(
    status: &mut RobertStatus,
    knowledge: &mut RobertKnowledge,
    map: &Vec<Vec<Option<Content>>>,
    pos: (usize, usize),
    outcome: Result<(), Failure>,
) -> (report: WalkReport)
    requires
        is_walk(old(status).next_action),
        outcome is Ok ==> in_map(map@, pos.0 as int, pos.1 as int) && pos.0 < i32_max() && pos.1
            < i32_max() && dims_fit_i32(map@),
        outcome is Err ==> (old(status).next_action matches Action::WalkDiscover(_, steps) ==> steps
            < usize::MAX),
    ensures
        walk_ended(
            *old(status),
            *final(status),
            *old(knowledge),
            *final(knowledge),
            map@,
            pos,
            outcome,
            report,
        ),
{
    match outcome {
        Ok(_) => {
            match status.next_action {
                Action::WalkDiscover(dirs, _) => {
                    status.previous_action = Action::WalkDiscover(dirs, 0);
                },
                _ => {},
            }
            update_knowledge(knowledge, map, pos, true);
            let zombie_found = check_for_zombies(pos, map);
            if zombie_found.0 {
                match zombie_found.1 {
                    Some(side) => {
                        status.previous_action = Action::ESCAPE(None, zombie_found.2, side);
                    },
                    None => {},
                }
            }
            WalkReport { zombie_alarm: zombie_found.0, decided: None }
        },
        Err(f) => {
            match status.next_action {
                Action::WalkDiscover(dirs, steps) => {
                    status.previous_action = Action::WalkDiscover(dirs, steps + 1);
                },
                _ => {},
            }
            let decided = match f {
                Failure::NotEnoughEnergy => Some(Action::REST),
                Failure::Other => None,
            };
            WalkReport { zombie_alarm: false, decided }
        },
    }
}

/// After a walk to discover, a Robert with energy above 400 also sends the
/// dog around, with 80 energy and no stop.
pub fn dog_follows(status: &RobertStatus, energy: usize) -> (chore: Option<Chore>)
    ensures
        chore == if status.next_action is WalkDiscover && energy > 400 {
            Some(Chore::Discover { budget: 80, stop: SearchStop::Never })
        } else {
            None
        },
{
    match status.next_action {
        Action::WalkDiscover(_, _) => {
            if energy > 400 {
                Some(Chore::Discover { budget: 80, stop: SearchStop::Never })
            } else {
                None
            }
        },
        _ => None,
    }
}

/// Takes the outcome of drinking: `x` units of water quench 100 plus ten
/// times `x` of thirst; a lack of energy makes Robert rest; any other refusal
/// ends the simulation.
pub fn after_drink(status: &mut RobertStatus, outcome: Result<usize, Failure>) -> (r: Result<
    Option<Action>,
    Error,
>)
    requires
        outcome matches Ok(x) ==> old(status).thirst + 100 + 10 * x <= usize::MAX,
    ensures
        final(status).hunger == old(status).hunger,
        final(status).previous_action == old(status).previous_action,
        final(status).next_action == old(status).next_action,
        match outcome {
            Ok(x) => final(status).thirst == old(status).thirst + 100 + 10 * x && r == Ok::<
                Option<Action>,
                Error,
            >(None),
            Err(f) => final(status).thirst == old(status).thirst && r == if f
                == Failure::NotEnoughEnergy {
                Ok::<Option<Action>, Error>(Some(Action::REST))
            } else {
                Err::<Option<Action>, Error>(Error::CollectError)
            },
        },
{
    match outcome {
        Ok(x) => {
            status.thirst = status.thirst + 100 + 10 * x;
            Ok(None)
        },
        Err(Failure::NotEnoughEnergy) => Ok(Some(Action::REST)),
        Err(Failure::Other) => Err(Error::CollectError),
    }
}

/// Whether Robert lives on after a tick, and otherwise of what he died.
#[derive(Clone, Copy, Debug, PartialEq, Eq, Structural)]
pub enum Fate {
    Alive,
    DeadOfThirst,
    DeadOfHunger,
}

/// The fate of a Robert with this thirst and hunger at the end of a tick.
pub open spec fn fate_of(thirst: usize, hunger: usize) -> Fate {
    if thirst <= 2 {
        Fate::DeadOfThirst
    } else if hunger <= 3 {
        Fate::DeadOfHunger
    } else {
        Fate::Alive
    }
}

/// Ends a tick: thirst drops by 2 and hunger by 3. Robert dies of thirst
/// when his thirst would reach zero, else of hunger when his hunger would;
/// a dead Robert's status is left as it was.
pub fn age(status: &mut RobertStatus) -> (fate: Fate)
    requires
        old(status).thirst <= i32_max(),
        old(status).hunger <= i32_max(),
    ensures
        fate == fate_of(old(status).thirst, old(status).hunger),
        fate == Fate::Alive ==> final(status).thirst == old(status).thirst - 2 && final(status).hunger
            == old(status).hunger - 3,
        fate != Fate::Alive ==> final(status).thirst == old(status).thirst && final(status).hunger
            == old(status).hunger,
        final(status).previous_action == old(status).previous_action,
        final(status).next_action == old(status).next_action,
{
    if status.thirst <= 2 {
        Fate::DeadOfThirst
    } else if status.hunger <= 3 {
        Fate::DeadOfHunger
    } else {
        status.thirst = status.thirst - 2;
        status.hunger = status.hunger - 3;
        Fate::Alive
    }
}

/// Ends a tick: the next action becomes the one the tick decided (a rest
/// when energy ran out), else the planned one; then Robert ages as `age`
/// says.
pub fn end_tick(status: &mut RobertStatus, decided: Option<Action>, planned: Option<Action>) -> (fate: Fate)
    requires
        decided is None ==> planned is Some,
        old(status).thirst <= i32_max(),
        old(status).hunger <= i32_max(),
    ensures
        final(status).next_action == match decided {
            Some(a) => a,
            None => planned.unwrap(),
        },
        final(status).previous_action == old(status).previous_action,
        fate == fate_of(old(status).thirst, old(status).hunger),
        fate == Fate::Alive ==> final(status).thirst == old(status).thirst - 2 && final(status).hunger
            == old(status).hunger - 3,
        fate != Fate::Alive ==> final(status).thirst == old(status).thirst && final(status).hunger
            == old(status).hunger,
{
    status.next_action = match decided {
        Some(a) => a,
        None => match planned {
            Some(a) => a,
            None => Action::REST,
        },
    };
    age(status)
}

} // verus!
