use i_am_legend::exploration::{check_cannot_go, find_most_unvisited_zone, map_converter_normal};
use i_am_legend::grid::{calculate_direction, check_target, update_knowledge};
use i_am_legend::planner::{eval_next_ac, Pending, Plan, Query, Situation};
use i_am_legend::position_set::PositionSet;
use i_am_legend::tick::after_walk;
use i_am_legend::types::{Action, Content, Direction, RobertKnowledge, RobertStatus};

#[test]
fn zombie_sighting_starts_an_escape() {
    let mut map = vec![vec![Some(Content::Nothing); 4]; 4];
    map[2][3] = Some(Content::Scarecrow);
    let mut status = RobertStatus::new();
    status.next_action = Action::WalkToTarget(Direction::Right, (1, 3), Some(Content::Water(2)));
    status.previous_action = status.next_action;
    status.thirst = 30;
    let mut k = RobertKnowledge::new();
    let report = after_walk(&mut status, &mut k, &map, (1, 2), Ok(()));
    assert!(report.zombie_alarm);
    let sit = Situation { pos: (1, 2), energy: 300, switch_tool: false };
    let plan = eval_next_ac(&status, &mut k, &map, &sit);
    assert_eq!(
        plan,
        Plan::Ask(
            Query::FindClosest(Content::Building),
            Pending::Shelter { fresh: true, origin: (2, 3), side: (Direction::Down, Some(Direction::Right)) }
        )
    );
}

#[test]
fn direction_of_a_neighbour_finds_it() {
    for t in [(4, 5), (6, 5), (5, 4), (5, 6)] {
        let (d, extra) = calculate_direction((5, 5), t);
        assert_eq!(extra, None);
        assert!(check_target((5, 5), &t, &d));
    }
}

#[test]
fn step_checks_look_ahead() {
    let mut zombies = PositionSet::new();
    zombies.insert((4, 5));
    zombies.insert((6, 5));
    zombies.insert((5, 4));
    zombies.insert((5, 6));
    for (t, d) in [
        ((4, 5), Direction::Up),
        ((6, 5), Direction::Down),
        ((5, 4), Direction::Left),
        ((5, 6), Direction::Right),
    ] {
        assert!(check_target((5, 5), &t, &d));
        assert_eq!(check_cannot_go((5, 5), &zombies, &d), (true, Some(t)));
    }
}

#[test]
fn looking_again_changes_nothing() {
    let mut map = vec![vec![Some(Content::Nothing); 4]; 4];
    map[0][0] = Some(Content::Scarecrow);
    map[3][3] = Some(Content::Building);
    let mut k = RobertKnowledge::new();
    update_knowledge(&mut k, &map, (1, 1), true);
    let once = (k.zombies.to_vec(), k.shelters.to_vec());
    update_knowledge(&mut k, &map, (1, 1), true);
    assert_eq!((k.zombies.to_vec(), k.shelters.to_vec()), once);
    let mut whole = RobertKnowledge::new();
    update_knowledge(&mut whole, &map, (1, 1), false);
    for p in once.0 {
        assert!(whole.zombies.contains(p));
    }
    assert!(whole.shelters.contains((3, 3)));
}

#[test]
fn converting_twice_is_converting_once() {
    let map = vec![vec![Some(Content::Nothing); 5]; 5];
    let mut zombies = PositionSet::new();
    zombies.insert((2, 2));
    zombies.insert((7, 0));
    let once = map_converter_normal(map, &zombies);
    let twice = map_converter_normal(once.clone(), &zombies);
    assert_eq!(once, twice);
}

#[test]
fn knowledge_only_grows() {
    let mut map = vec![vec![Some(Content::Nothing); 3]; 3];
    map[0][0] = Some(Content::Scarecrow);
    let mut k = RobertKnowledge::new();
    k.zombies.insert((7, 7));
    k.shelters.insert((8, 8));
    update_knowledge(&mut k, &map, (1, 1), true);
    assert!(k.zombies.contains((7, 7)) && k.zombies.contains((0, 0)));
    assert!(k.shelters.contains((8, 8)));
    update_knowledge(&mut k, &map, (1, 1), false);
    assert_eq!(k.zombies.len(), 2);
}

#[test]
fn unvisited_zone_is_the_same_each_time() {
    let mut map: Vec<Vec<Option<u8>>> = vec![vec![Some(1); 5]; 5];
    map[1][3] = None;
    map[4][3] = None;
    map[4][0] = None;
    let a = find_most_unvisited_zone(&map);
    let b = find_most_unvisited_zone(&map);
    assert_eq!(a, b);
    assert_eq!(a, (4, 3));
}

#[test]
fn fresh_exploration_avoids_known_zombies() {
    let mut map = vec![vec![Some(Content::Nothing); 3]; 3];
    map[2][2] = None;
    let status = RobertStatus { hunger: 100, thirst: 100, previous_action: Action::REST, next_action: Action::REST };
    let mut k = RobertKnowledge::new();
    k.zombies.insert((2, 1));
    let sit = Situation { pos: (1, 1), energy: 600, switch_tool: false };
    for _ in 0..40 {
        match eval_next_ac(&status, &mut k, &map, &sit) {
            Plan::Decided(Action::WalkDiscover((a, b), 0)) => {
                assert!(!check_cannot_go((1, 1), &k.zombies, &a).0);
                assert!(!check_cannot_go((1, 1), &k.zombies, &b).0);
                assert!(a != Direction::Down && b != Direction::Down);
            }
            other => panic!("unexpected plan {:?}", other),
        }
    }
}
