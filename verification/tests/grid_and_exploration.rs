use i_am_legend::exploration::{
    check_cannot_go, eval_direction, find_most_unvisited_zone, get_quantity, map_converter_escape,
    map_converter_normal,
};
use i_am_legend::grid::{calculate_direction, check_for_zombies, check_target, update_knowledge};
use i_am_legend::position_set::PositionSet;
use i_am_legend::types::{Content, Direction, RobertKnowledge};

fn empty_map(n: usize) -> Vec<Vec<Option<Content>>> {
    vec![vec![Some(Content::Nothing); n]; n]
}

#[test]
fn check_target_in_each_direction() {
    assert!(check_target((5, 5), &(4, 5), &Direction::Up));
    assert!(check_target((5, 5), &(6, 5), &Direction::Down));
    assert!(check_target((5, 5), &(5, 4), &Direction::Left));
    assert!(check_target((5, 5), &(5, 6), &Direction::Right));
    assert!(!check_target((5, 5), &(5, 6), &Direction::Left));
    assert!(!check_target((0, 0), &(0, 0), &Direction::Up));
    assert!(!check_target((5, 5), &(4, 4), &Direction::Up));
}

#[test]
fn calculate_direction_all_neighbours() {
    assert_eq!(calculate_direction((5, 5), (6, 5)), (Direction::Down, None));
    assert_eq!(calculate_direction((5, 5), (4, 5)), (Direction::Up, None));
    assert_eq!(calculate_direction((5, 5), (5, 6)), (Direction::Right, None));
    assert_eq!(calculate_direction((5, 5), (5, 4)), (Direction::Left, None));
    assert_eq!(calculate_direction((5, 5), (6, 6)), (Direction::Down, Some(Direction::Right)));
    assert_eq!(calculate_direction((5, 5), (4, 6)), (Direction::Up, Some(Direction::Right)));
    assert_eq!(calculate_direction((5, 5), (6, 4)), (Direction::Down, Some(Direction::Left)));
    assert_eq!(calculate_direction((5, 5), (4, 4)), (Direction::Up, Some(Direction::Left)));
    // not a neighbour
    assert_eq!(calculate_direction((5, 5), (9, 1)), (Direction::Down, Some(Direction::Right)));
    assert_eq!(calculate_direction((5, 5), (5, 5)), (Direction::Down, Some(Direction::Right)));
}

#[test]
fn zombies_are_noticed_in_order() {
    let mut map = empty_map(4);
    map[2][2] = Some(Content::Scarecrow);
    map[1][2] = Some(Content::Scarecrow);
    // Robert at (1, 1): the tiles are looked at row above first, then the sides.
    let r = check_for_zombies((1, 1), &map);
    assert_eq!(r, (true, Some((Direction::Right, None)), (1, 2)));
    map[1][2] = Some(Content::Nothing);
    let r = check_for_zombies((1, 1), &map);
    assert_eq!(r, (true, Some((Direction::Down, Some(Direction::Right))), (2, 2)));
}

#[test]
fn no_zombie_noticed_on_a_building_or_alone() {
    let mut map = empty_map(3);
    map[0][1] = Some(Content::Scarecrow);
    map[1][1] = Some(Content::Building);
    assert_eq!(check_for_zombies((1, 1), &map), (false, None, (0, 0)));
    map[1][1] = None;
    assert_eq!(check_for_zombies((1, 1), &map), (true, Some((Direction::Up, None)), (0, 1)));
    let map = empty_map(3);
    assert_eq!(check_for_zombies((0, 0), &map), (false, None, (0, 0)));
}

#[test]
fn update_knowledge_around_and_everywhere() {
    let mut map = empty_map(5);
    map[0][0] = Some(Content::Scarecrow);
    map[1][2] = Some(Content::Building);
    map[4][4] = Some(Content::Scarecrow);
    let mut k = RobertKnowledge::new();
    update_knowledge(&mut k, &map, (1, 1), true);
    assert!(k.zombies.contains((0, 0)));
    assert!(!k.zombies.contains((4, 4)));
    assert!(k.shelters.contains((1, 2)));
    assert_eq!(k.zombies.len(), 1);
    update_knowledge(&mut k, &map, (1, 1), false);
    assert!(k.zombies.contains((4, 4)));
    assert_eq!(k.zombies.len(), 2);
    assert_eq!(k.shelters.len(), 1);
    assert_eq!(k.path_index, 1);
}

#[test]
fn most_unvisited_zone_scores_rows_and_columns() {
    let mut map: Vec<Vec<Option<u8>>> = vec![vec![Some(0); 3]; 3];
    assert_eq!(find_most_unvisited_zone(&map), (0, 0));
    map[2][0] = None;
    map[2][1] = None;
    map[0][1] = None;
    // row 2 has two unknown tiles, column 1 has two: (2, 1) scores 4.
    assert_eq!(find_most_unvisited_zone(&map), (2, 1));
    let empty: Vec<Vec<Option<u8>>> = Vec::new();
    assert_eq!(find_most_unvisited_zone(&empty), (0, 0));
}

#[test]
fn most_unvisited_zone_keeps_first_best() {
    let mut map: Vec<Vec<Option<u8>>> = vec![vec![Some(0); 2]; 2];
    map[0][0] = None;
    map[1][1] = None;
    // every tile scores 2: the first one wins.
    assert_eq!(find_most_unvisited_zone(&map), (0, 0));
}

#[test]
fn eval_direction_headings_and_distance() {
    assert_eq!(eval_direction((3, 7), (9, 1)), ((Direction::Left, Direction::Down), 4));
    assert_eq!(eval_direction((3, 1), (9, 7)), ((Direction::Right, Direction::Down), 2));
    assert_eq!(eval_direction((9, 1), (3, 7)), ((Direction::Right, Direction::Up), 8));
    assert_eq!(eval_direction((9, 7), (9, 7)), ((Direction::Left, Direction::Up), 2));
}

#[test]
fn escape_map_forgets_zombie_tiles() {
    let map = empty_map(3);
    let mut zombies = PositionSet::new();
    zombies.insert((1, 1));
    zombies.insert((0, 2));
    let out = map_converter_escape(map, &zombies);
    assert_eq!(out[1][1], None);
    assert_eq!(out[0][2], None);
    assert_eq!(out[0][0], Some(Content::Nothing));
    assert_eq!(out.len(), 3);
}

#[test]
fn normal_map_forgets_tiles_around_zombies() {
    let map = empty_map(4);
    let mut zombies = PositionSet::new();
    zombies.insert((0, 0));
    let out = map_converter_normal(map, &zombies);
    assert_eq!(out[0][1], None);
    assert_eq!(out[1][0], None);
    assert_eq!(out[1][1], None);
    // the zombie's own tile goes too
    assert_eq!(out[0][0], None);
    assert_eq!(out[2][2], Some(Content::Nothing));
    assert_eq!(out[0][2], Some(Content::Nothing));
    // a zombie off the map clears only the part of its block on the map
    let mut far = PositionSet::new();
    far.insert((4, 1));
    let out = map_converter_normal(empty_map(4), &far);
    assert_eq!(out[3][0], None);
    assert_eq!(out[3][2], None);
    assert_eq!(out[2][1], Some(Content::Nothing));
    let mut very_far = PositionSet::new();
    very_far.insert((9, 9));
    assert_eq!(map_converter_normal(empty_map(4), &very_far), empty_map(4));
}

#[test]
fn cannot_go_checks() {
    let mut zombies = PositionSet::new();
    zombies.insert((2, 3));
    zombies.insert((1, 2));
    assert_eq!(check_cannot_go((2, 2), &zombies, &Direction::Right), (true, Some((2, 3))));
    assert_eq!(check_cannot_go((2, 2), &zombies, &Direction::Left), (false, None));
    assert_eq!(check_cannot_go((2, 0), &zombies, &Direction::Left), (false, None));
    assert_eq!(check_cannot_go((2, 2), &zombies, &Direction::Up), (true, Some((1, 2))));
    assert_eq!(check_cannot_go((2, 2), &zombies, &Direction::Down), (false, None));
    assert_eq!(check_cannot_go((0, 0), &zombies, &Direction::Up), (false, None));
}

#[test]
fn quantities() {
    assert_eq!(get_quantity(&Content::Water(7)), 7);
    assert_eq!(get_quantity(&Content::Market(3)), 3);
    assert_eq!(get_quantity(&Content::Bin(1, 4)), 0);
    assert_eq!(get_quantity(&Content::Building), 0);
    assert_eq!(get_quantity(&Content::Nothing), 0);
}

#[test]
fn position_set_keeps_each_position_once() {
    let mut s = PositionSet::new();
    assert!(s.insert((1, 2)));
    assert!(!s.insert((1, 2)));
    assert!(s.insert((2, 1)));
    assert_eq!(s.len(), 2);
    assert_eq!(s.to_vec(), vec![(1, 2), (2, 1)]);
    assert!(s.contains((2, 1)));
    assert!(!s.contains((3, 3)));
}
