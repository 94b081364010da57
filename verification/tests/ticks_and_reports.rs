use i_am_legend::random::{choose_safe_direction, direction_from_roll, free_directions, free_pair_from_draws, walk_direction_from_roll, generate_random_direction, pick_walk_direction, random_free_pair, random_safe_direction};
use i_am_legend::position_set::PositionSet;
use i_am_legend::rocket_data::RocketData;
use i_am_legend::text::{number_to_text, numbers_to_text, rows_to_text};
use i_am_legend::tick::{
    after_drink, after_walk, age, dog_follows, end_tick, search_stop, start_action, stops_at, Chore, Failure,
    Fate, SearchStop, WalkReport,
};
use i_am_legend::types::{
    terminate_with_error, Action, Content, DiscoverInfo, Direction, Error, RobertKnowledge, RobertStatus,
};

#[test]
fn fresh_status_and_knowledge() {
    let s = RobertStatus::new();
    assert_eq!(s.hunger, 100);
    assert_eq!(s.thirst, 100);
    assert_eq!(s.previous_action, Action::REST);
    assert_eq!(s.next_action, Action::DISCOVER(DiscoverInfo { content: None, energy: 500 }));
    let k = RobertKnowledge::new();
    assert_eq!(k.zombies.len(), 0);
    assert_eq!(k.shelters.len(), 0);
    assert_eq!(k.path, Some(Vec::new()));
    assert_eq!(k.path_index, 1);
}

#[test]
fn termination_messages() {
    assert_eq!(terminate_with_error(Error::CollectError), "Terminate with errorCollectError");
    assert_eq!(terminate_with_error(Error::LogicError), "Terminate with errorLogicError");
}

#[test]
fn rolls_and_random_directions() {
    assert_eq!(direction_from_roll(0), Direction::Up);
    assert_eq!(direction_from_roll(1), Direction::Down);
    assert_eq!(direction_from_roll(2), Direction::Right);
    assert_eq!(direction_from_roll(3), Direction::Left);
    assert_eq!(direction_from_roll(7), Direction::Left);
    let mut seen = [false; 4];
    for _ in 0..400 {
        match generate_random_direction() {
            Direction::Up => seen[0] = true,
            Direction::Down => seen[1] = true,
            Direction::Left => seen[2] = true,
            Direction::Right => seen[3] = true,
        }
    }
    assert!(seen.iter().all(|b| *b));
    let mut both = (false, false);
    for _ in 0..200 {
        let d = pick_walk_direction((Direction::Up, Direction::Left));
        assert!(d == Direction::Up || d == Direction::Left);
        if d == Direction::Up {
            both.0 = true;
        } else {
            both.1 = true;
        }
    }
    assert!(both.0 && both.1);
}

#[test]
fn free_pairs_avoid_zombies() {
    let mut zombies = PositionSet::new();
    assert!(random_free_pair((5, 5), &zombies).is_some());
    zombies.insert((4, 5));
    zombies.insert((6, 5));
    zombies.insert((5, 4));
    for _ in 0..50 {
        // only right is free: it looks at (5, 6)
        assert_eq!(random_free_pair((5, 5), &zombies), Some((Direction::Right, Direction::Right)));
    }
    zombies.insert((5, 6));
    assert_eq!(random_free_pair((5, 5), &zombies), None);
    let _ = random_safe_direction((5, 5), &zombies);
}

#[test]
fn starting_actions() {
    let mut s = RobertStatus::new();
    assert_eq!(start_action(&mut s), Chore::Discover { budget: 500, stop: SearchStop::Never });
    assert_eq!(s.previous_action, Action::DISCOVER(DiscoverInfo { content: None, energy: 500 }));
    s.next_action = Action::COLLECT(Direction::Up, Content::Market(2));
    assert_eq!(start_action(&mut s), Chore::Nothing);
    assert_eq!(s.hunger, 250);
    s.next_action = Action::COLLECT(Direction::Left, Content::Water(2));
    assert_eq!(start_action(&mut s), Chore::Drink(Direction::Left));
    s.next_action = Action::ESCAPE(Some(Direction::Down), (0, 0), (Direction::Up, None));
    assert_eq!(start_action(&mut s), Chore::Walk(Direction::Down));
    s.next_action = Action::REST;
    assert_eq!(start_action(&mut s), Chore::Nothing);
    assert_eq!(s.previous_action, Action::REST);
    s.next_action = Action::WalkDiscover((Direction::Right, Direction::Right), 1);
    assert_eq!(start_action(&mut s), Chore::Walk(Direction::Right));
    assert_eq!(s.previous_action, Action::REST);
}

#[test]
fn search_stops() {
    assert_eq!(search_stop(Some(Content::Water(0))), SearchStop::Water);
    assert_eq!(search_stop(Some(Content::Market(0))), SearchStop::Market);
    assert_eq!(search_stop(Some(Content::Building)), SearchStop::Building);
    assert_eq!(search_stop(Some(Content::Rock(2))), SearchStop::Never);
    assert_eq!(search_stop(None), SearchStop::Never);
    assert!(stops_at(SearchStop::Water, &Content::Water(9)));
    assert!(!stops_at(SearchStop::Water, &Content::Market(9)));
    assert!(stops_at(SearchStop::Building, &Content::Building));
    assert!(!stops_at(SearchStop::Never, &Content::Building));
}

#[test]
fn steps_and_their_outcomes() {
    let mut map = vec![vec![Some(Content::Nothing); 3]; 3];
    map[0][0] = Some(Content::Scarecrow);
    let mut s = RobertStatus::new();
    s.next_action = Action::WalkDiscover((Direction::Up, Direction::Left), 2);
    let mut k = RobertKnowledge::new();
    let r = after_walk(&mut s, &mut k, &map, (2, 2), Ok(()));
    assert_eq!(r, WalkReport { zombie_alarm: false, decided: None });
    assert_eq!(s.previous_action, Action::WalkDiscover((Direction::Up, Direction::Left), 0));
    let r = after_walk(&mut s, &mut k, &map, (1, 1), Ok(()));
    assert_eq!(r, WalkReport { zombie_alarm: true, decided: None });
    assert_eq!(s.previous_action, Action::ESCAPE(None, (0, 0), (Direction::Up, Some(Direction::Left))));
    assert!(k.zombies.contains((0, 0)));
    let r = after_walk(&mut s, &mut k, &map, (1, 1), Err(Failure::NotEnoughEnergy));
    assert_eq!(r, WalkReport { zombie_alarm: false, decided: Some(Action::REST) });
    assert_eq!(s.previous_action, Action::WalkDiscover((Direction::Up, Direction::Left), 3));
    let r = after_walk(&mut s, &mut k, &map, (1, 1), Err(Failure::Other));
    assert_eq!(r.decided, None);
    assert_eq!(dog_follows(&s, 401), Some(Chore::Discover { budget: 80, stop: SearchStop::Never }));
    assert_eq!(dog_follows(&s, 400), None);
}

#[test]
fn drinking_outcomes() {
    let mut s = RobertStatus::new();
    assert_eq!(after_drink(&mut s, Ok(3)), Ok(None));
    assert_eq!(s.thirst, 230);
    assert_eq!(after_drink(&mut s, Err(Failure::NotEnoughEnergy)), Ok(Some(Action::REST)));
    assert_eq!(after_drink(&mut s, Err(Failure::Other)), Err(Error::CollectError));
    assert_eq!(s.thirst, 230);
}

#[test]
fn ageing_and_death() {
    let mut s = RobertStatus::new();
    assert_eq!(age(&mut s), Fate::Alive);
    assert_eq!((s.thirst, s.hunger), (98, 97));
    s.thirst = 2;
    assert_eq!(age(&mut s), Fate::DeadOfThirst);
    assert_eq!(s.thirst, 2);
    s.thirst = 3;
    s.hunger = 3;
    assert_eq!(age(&mut s), Fate::DeadOfHunger);
    s.hunger = 4;
    assert_eq!(age(&mut s), Fate::Alive);
    assert_eq!((s.thirst, s.hunger), (1, 1));
}

#[test]
fn rocket_statistics() {
    let mut r = RocketData::new();
    assert_eq!(r.action_values, vec![0; 6]);
    r.init_heatmap(3);
    assert_eq!(r.heatmap, vec![vec![0; 3]; 3]);
    assert_eq!(r.map_dim, 3);
    r.record_tick(500, 90, 80, (1, 2), 4, 1);
    r.record_tick(499, 87, 78, (1, 2), 4, 2);
    assert_eq!(r.energy_vector, vec![500, 499]);
    assert_eq!(r.hunger_vector, vec![90, 87]);
    assert_eq!(r.thirst_vector, vec![80, 78]);
    assert_eq!(r.heatmap[1][2], 2);
    assert_eq!((r.n_zombies, r.n_shelters), (4, 2));
    r.count_action(&Action::REST);
    r.count_action(&Action::COLLECT(Direction::Up, Content::Water(1)));
    r.count_action(&Action::REST);
    assert_eq!(r.action_values, vec![0, 0, 0, 0, 2, 1]);
}

#[test]
fn texts() {
    let mut s = RobertStatus::new();
    s.thirst = 7;
    assert_eq!(s.to_string(), "Robert Status: [hunger = 100, thirst=7]");
    let mut k = RobertKnowledge::new();
    assert_eq!(k.to_string(), "Robert Knowledge:\n[No zombie found, No shelter found]");
    k.zombies.insert((3, 14));
    k.zombies.insert((0, 2));
    k.shelters.insert((10, 0));
    assert_eq!(
        k.to_string(),
        "Robert Knowledge:\n[ zombies 2 found: (3,14) (0,2) ,   buildings 1 found: (10,0) ]"
    );
    assert_eq!(number_to_text(0), "0");
    assert_eq!(number_to_text(1234509), "1234509");
    assert_eq!(numbers_to_text(&vec![]), "[]");
    assert_eq!(numbers_to_text(&vec![3, 40, 500]), "[3, 40, 500]");
    assert_eq!(rows_to_text(&vec![vec![0, 1], vec![], vec![2]]), "[[0, 1], [], [2]]");
    assert_eq!(rows_to_text(&vec![]), "[]");
}

#[test]
fn safe_direction_keeps_first_free_draw() {
    let mut zombies = PositionSet::new();
    zombies.insert((4, 5)); // blocks up
    zombies.insert((5, 4)); // blocks left
    let d = Direction::Up;
    let l = Direction::Left;
    let draws = vec![d, l, Direction::Down, d, l, d];
    assert_eq!(choose_safe_direction((5, 5), &zombies, &draws), Direction::Down);
    let blocked_all = vec![d, l, d, l, d, l];
    assert_eq!(choose_safe_direction((5, 5), &zombies, &blocked_all), Direction::Left);
    let last_free = vec![d, d, d, d, d, Direction::Right];
    assert_eq!(choose_safe_direction((5, 5), &zombies, &last_free), Direction::Right);
}

#[test]
fn draws_decide_walks_and_pairs() {
    let dirs = (Direction::Up, Direction::Left);
    assert_eq!(walk_direction_from_roll(dirs, 1), Direction::Up);
    assert_eq!(walk_direction_from_roll(dirs, 0), Direction::Left);
    let mut zombies = PositionSet::new();
    zombies.insert((4, 5)); // blocks up
    assert_eq!(free_directions((5, 5), &zombies), vec![Direction::Down, Direction::Right, Direction::Left]);
    assert_eq!(
        free_pair_from_draws((5, 5), &zombies, 2, 0),
        Some((Direction::Left, Direction::Down))
    );
    zombies.insert((6, 5));
    zombies.insert((5, 4));
    zombies.insert((5, 6));
    assert_eq!(free_directions((5, 5), &zombies), Vec::<Direction>::new());
    assert_eq!(free_pair_from_draws((5, 5), &zombies, 0, 0), None);
}

#[test]
fn ending_a_tick() {
    let mut s = RobertStatus::new();
    assert_eq!(end_tick(&mut s, Some(Action::REST), None), Fate::Alive);
    assert_eq!(s.next_action, Action::REST);
    assert_eq!((s.thirst, s.hunger), (98, 97));
    let planned = Action::WalkDiscover((Direction::Up, Direction::Up), 0);
    assert_eq!(end_tick(&mut s, None, Some(planned)), Fate::Alive);
    assert_eq!(s.next_action, planned);
    s.thirst = 1;
    assert_eq!(end_tick(&mut s, Some(Action::REST), None), Fate::DeadOfThirst);
    assert_eq!(s.thirst, 1);
}
