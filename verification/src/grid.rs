use vstd::prelude::*;
use crate::types::{Content, Direction, RobertKnowledge};

verus! {

/// The largest value of an `i32`; coordinates are compared as `i32` numbers.
pub open spec fn i32_max() -> int {
    0x7fff_ffff
}

/// `(x, y)` names a tile of `map`: a row that exists and a column of it.
pub open spec fn in_map<T>(map: Seq<Vec<Option<T>>>, x: int, y: int) -> bool {
    &&& 0 <= x < map.len()
    &&& 0 <= y < map[x]@.len()
}

/// Row and column lengths all fit in an `i32`.
pub open spec fn dims_fit_i32<T>(map: Seq<Vec<Option<T>>>) -> bool {
    &&& map.len() <= i32_max()
    &&& forall|i: int| 0 <= i < map.len() ==> #[trigger] map[i]@.len() <= i32_max()
}

/// The eight offsets of the tiles around a tile, in the order in which they
/// are looked at: the row above from left to right, the two sides, then the
/// row below.
pub open spec fn offset(k: int) -> (int, int) {
    if k == 0 {
        (-1, -1)
    } else if k == 1 {
        (-1, 0)
    } else if k == 2 {
        (-1, 1)
    } else if k == 3 {
        (0, -1)
    } else if k == 4 {
        (0, 1)
    } else if k == 5 {
        (1, -1)
    } else if k == 6 {
        (1, 0)
    } else {
        (1, 1)
    }
}

/// The `k`-th tile around `pos`.
pub open spec fn neighbour(pos: (usize, usize), k: int) -> (int, int) {
    (pos.0 + offset(k).0, pos.1 + offset(k).1)
}

/// `p` is one of the eight tiles around `pos`.
pub open spec fn is_around(pos: (usize, usize), p: (usize, usize)) -> bool {
    exists|k: int| 0 <= k < 8 && #[trigger] neighbour(pos, k) == (p.0 as int, p.1 as int)
}

/// The tile at `(x, y)` is known and holds `c`.
pub open spec fn holds(map: Seq<Vec<Option<Content>>>, x: int, y: int, c: Content) -> bool {
    in_map(map, x, y) && map[x]@[y] == Some(c)
}

/// `target` is the tile next to `pos` in `direction`.
pub open spec fn target_in_direction(
    pos: (usize, usize),
    target: (usize, usize),
    direction: Direction,
) -> bool {
    match direction {
        Direction::Up => pos.0 - 1 == target.0 && pos.1 == target.1,
        Direction::Down => pos.0 + 1 == target.0 && pos.1 == target.1,
        Direction::Left => pos.0 == target.0 && pos.1 - 1 == target.1,
        Direction::Right => pos.0 == target.0 && pos.1 + 1 == target.1,
    }
}

/// Whether the target lies right next to Robert in `direction`.
pub fn check_target(pos: (usize, usize), target: &(usize, usize), direction: &Direction) -> (r: bool)
    requires
        pos.0 < i32_max(),
        pos.1 < i32_max(),
        target.0 <= i32_max(),
        target.1 <= i32_max(),
    ensures
        r == target_in_direction(pos, *target, *direction),
{
    match direction {
        Direction::Up => pos.0 >= 1 && pos.0 - 1 == target.0 && pos.1 == target.1,
        Direction::Down => pos.0 + 1 == target.0 && pos.1 == target.1,
        Direction::Left => pos.0 == target.0 && pos.1 >= 1 && pos.1 - 1 == target.1,
        Direction::Right => pos.0 == target.0 && pos.1 + 1 == target.1,
    }
}

/// Where `to` lies seen from `from`: the vertical direction and, for a
/// diagonal, the horizontal one. Anything but a neighbour counts as down and
/// right.
pub open spec fn direction_between(from: (usize, usize), to: (usize, usize)) -> (
    Direction,
    Option<Direction>,
) {
    let dx = to.0 - from.0;
    let dy = to.1 - from.1;
    if dx == 1 && dy == 0 {
        (Direction::Down, None)
    } else if dx == -1 && dy == 0 {
        (Direction::Up, None)
    } else if dx == 0 && dy == 1 {
        (Direction::Right, None)
    } else if dx == 0 && dy == -1 {
        (Direction::Left, None)
    } else if dx == 1 && dy == 1 {
        (Direction::Down, Some(Direction::Right))
    } else if dx == -1 && dy == 1 {
        (Direction::Up, Some(Direction::Right))
    } else if dx == 1 && dy == -1 {
        (Direction::Down, Some(Direction::Left))
    } else if dx == -1 && dy == -1 {
        (Direction::Up, Some(Direction::Left))
    } else {
        (Direction::Down, Some(Direction::Right))
    }
}

/// The direction in which `coord2` lies from `coord1`.
pub fn calculate_direction(coord1: (usize, usize), coord2: (usize, usize)) -> (r: (
    Direction,
    Option<Direction>,
))
    requires
        coord1.0 <= i32_max(),
        coord1.1 <= i32_max(),
        coord2.0 <= i32_max(),
        coord2.1 <= i32_max(),
    ensures
        r == direction_between(coord1, coord2),
{
    let down = coord2.0 == coord1.0 + 1;
    let up = coord1.0 >= 1 && coord2.0 == coord1.0 - 1;
    let same_row = coord2.0 == coord1.0;
    let right = coord2.1 == coord1.1 + 1;
    let left = coord1.1 >= 1 && coord2.1 == coord1.1 - 1;
    let same_col = coord2.1 == coord1.1;
    if down && same_col {
        (Direction::Down, None)
    } else if up && same_col {
        (Direction::Up, None)
    } else if same_row && right {
        (Direction::Right, None)
    } else if same_row && left {
        (Direction::Left, None)
    } else if down && right {
        (Direction::Down, Some(Direction::Right))
    } else if up && right {
        (Direction::Up, Some(Direction::Right))
    } else if down && left {
        (Direction::Down, Some(Direction::Left))
    } else if up && left {
        (Direction::Up, Some(Direction::Left))
    } else {
        (Direction::Down, Some(Direction::Right))
    }
}

/// The `k`-th tile around `pos`, if both its coordinates are not negative.
fn neighbour_at(pos: (usize, usize), k: usize) -> (r: Option<(usize, usize)>)
    requires
        k < 8,
        pos.0 < i32_max(),
        pos.1 < i32_max(),
    ensures
        match r {
            Some(p) => neighbour(pos, k as int) == (p.0 as int, p.1 as int),
            None => neighbour(pos, k as int).0 < 0 || neighbour(pos, k as int).1 < 0,
        },
{
    let (dx, dy): (usize, usize) = if k == 0 {
        (0, 0)
    } else if k == 1 {
        (0, 1)
    } else if k == 2 {
        (0, 2)
    } else if k == 3 {
        (1, 0)
    } else if k == 4 {
        (1, 2)
    } else if k == 5 {
        (2, 0)
    } else if k == 6 {
        (2, 1)
    } else {
        (2, 2)
    };
    // (dx, dy) is the offset shifted by one in both coordinates.
    if pos.0 + dx < 1 || pos.1 + dy < 1 {
        None
    } else {
        Some((pos.0 + dx - 1, pos.1 + dy - 1))
    }
}

/// The `k`-th tile around `pos`, if it is a tile of `map`.
pub(crate) fn neighbour_in_map<T>(map: &Vec<Vec<Option<T>>>, pos: (usize, usize), k: usize) -> (r: Option<(usize, usize)>)
    requires
        k < 8,
        pos.0 < i32_max(),
        pos.1 < i32_max(),
    ensures
        match r {
            Some(p) => neighbour(pos, k as int) == (p.0 as int, p.1 as int)
                && in_map(map@, p.0 as int, p.1 as int),
            None => !in_map(map@, neighbour(pos, k as int).0, neighbour(pos, k as int).1),
        },
{
    match neighbour_at(pos, k) {
        None => None,
        Some(p) => {
            if p.0 < map.len() && p.1 < map[p.0].len() {
                Some(p)
            } else {
                None
            }
        },
    }
}

/// There is a zombie on the `k`-th tile around `pos`.
pub open spec fn zombie_next_to(map: Seq<Vec<Option<Content>>>, pos: (usize, usize), k: int) -> bool {
    holds(map, neighbour(pos, k).0, neighbour(pos, k).1, Content::Scarecrow)
}

/// The first `k` from `from` on (below 8) with a zombie on the `k`-th tile
/// around `pos`.
pub open spec fn first_zombie_from(map: Seq<Vec<Option<Content>>>, pos: (usize, usize), from: int) -> Option<int>
    decreases 8 - from,
{
    if from >= 8 || from < 0 {
        None
    } else if zombie_next_to(map, pos, from) {
        Some(from)
    } else {
        first_zombie_from(map, pos, from + 1)
    }
}

/// What Robert notices of zombies: nothing while he stands on a building;
/// else the first zombie around him, with the side on which it stands.
pub open spec fn zombie_alarm(map: Seq<Vec<Option<Content>>>, pos: (usize, usize)) -> (
    bool,
    Option<(Direction, Option<Direction>)>,
    (usize, usize),
) {
    if map[pos.0 as int]@[pos.1 as int] == Some(Content::Building) {
        (false, None, (0, 0))
    } else {
        match first_zombie_from(map, pos, 0) {
            None => (false, None, (0, 0)),
            Some(k) => {
                let z = (neighbour(pos, k).0 as usize, neighbour(pos, k).1 as usize);
                (true, Some(direction_between(pos, z)), z)
            },
        }
    }
}

/// Whether a zombie stands around Robert; if so, on which side and where.
/// Nothing is reported while Robert stands on a building.
pub fn check_for_zombies(pos: (usize, usize), map: &Vec<Vec<Option<Content>>>) -> (r: (
    bool,
    Option<(Direction, Option<Direction>)>,
    (usize, usize),
))
    requires
        in_map(map@, pos.0 as int, pos.1 as int),
        pos.0 < i32_max(),
        pos.1 < i32_max(),
        dims_fit_i32(map@),
    ensures
        r == zombie_alarm(map@, pos),
{
    match &map[pos.0][pos.1] {
        None => {},
        Some(t) => {
            if *t == Content::Building {
                return (false, None, (0, 0));
            }
        },
    }
    let mut k: usize = 0;
    while k < 8
        invariant
            k <= 8,
            in_map(map@, pos.0 as int, pos.1 as int),
            map@[pos.0 as int]@[pos.1 as int] != Some(Content::Building),
            pos.0 < i32_max(),
            pos.1 < i32_max(),
            first_zombie_from(map@, pos, 0) == first_zombie_from(map@, pos, k as int),
        decreases 8 - k,
    {
        match neighbour_in_map(map, pos, k) {
            Some(p) => {
                match &map[p.0][p.1] {
                    Some(t) => {
                        if *t == Content::Scarecrow {
                            assert(zombie_next_to(map@, pos, k as int));
                            let position = calculate_direction(pos, p);
                            return (true, Some(position), p);
                        }
                    },
                    None => {},
                }
            },
            None => {},
        }
        k = k + 1;
    }
    (false, None, (0, 0))
}

/// The tiles around `pos` on which `map` shows `c`.
pub open spec fn seen_around(map: Seq<Vec<Option<Content>>>, pos: (usize, usize), c: Content) -> Set<
    (usize, usize),
> {
    Set::new(|p: (usize, usize)| is_around(pos, p) && holds(map, p.0 as int, p.1 as int, c))
}

/// The tiles anywhere on `map` that show `c`.
pub open spec fn seen_anywhere(map: Seq<Vec<Option<Content>>>, c: Content) -> Set<(usize, usize)> {
    Set::new(|p: (usize, usize)| holds(map, p.0 as int, p.1 as int, c))
}

/// The tiles that a look shows `c` on: around Robert, or on the whole map.
pub open spec fn seen(map: Seq<Vec<Option<Content>>>, pos: (usize, usize), around: bool, c: Content) -> Set<
    (usize, usize),
> {
    if around {
        seen_around(map, pos, c)
    } else {
        seen_anywhere(map, c)
    }
}

/// Records in Robert's knowledge the zombies and the buildings that the map
/// shows: only around him when `around` (after a step, nothing else is new),
/// else everywhere.
pub fn update_knowledge(
    knowledge: &mut RobertKnowledge,
    map: &Vec<Vec<Option<Content>>>,
    pos: (usize, usize),
    around: bool,
)
    requires
        pos.0 < i32_max(),
        pos.1 < i32_max(),
        dims_fit_i32(map@),
    ensures
        final(knowledge).zombies@ == old(knowledge).zombies@.union(
            seen(map@, pos, around, Content::Scarecrow),
        ),
        final(knowledge).shelters@ == old(knowledge).shelters@.union(
            seen(map@, pos, around, Content::Building),
        ),
        final(knowledge).path == old(knowledge).path,
        final(knowledge).path_index == old(knowledge).path_index,
{
    if around {
        let mut k: usize = 0;
        while k < 8
            invariant
                k <= 8,
                pos.0 < i32_max(),
                pos.1 < i32_max(),
                knowledge.zombies@ == old(knowledge).zombies@.union(
                    Set::new(|p: (usize, usize)| exists|j: int| 0 <= j < k && #[trigger] neighbour(pos, j) == (p.0 as int, p.1 as int)
                        && holds(map@, p.0 as int, p.1 as int, Content::Scarecrow)),
                ),
                knowledge.shelters@ == old(knowledge).shelters@.union(
                    Set::new(|p: (usize, usize)| exists|j: int| 0 <= j < k && #[trigger] neighbour(pos, j) == (p.0 as int, p.1 as int)
                        && holds(map@, p.0 as int, p.1 as int, Content::Building)),
                ),
                knowledge.path == old(knowledge).path,
                knowledge.path_index == old(knowledge).path_index,
            decreases 8 - k,
        {
            let ghost zs = knowledge.zombies@;
            let ghost ss = knowledge.shelters@;
            match neighbour_in_map(map, pos, k) {
                Some(p) => {
                    match &map[p.0][p.1] {
                        Some(t) => {
                            match t {
                                Content::Building => {
                                    knowledge.shelters.insert(p);
                                },
                                Content::Scarecrow => {
                                    knowledge.zombies.insert(p);
                                },
                                _ => {},
                            }
                        },
                        None => {},
                    }
                },
                None => {},
            }
            proof {
                let kk = k as int;
                assert(knowledge.zombies@ =~= old(knowledge).zombies@.union(
                    Set::new(|p: (usize, usize)| exists|j: int| 0 <= j < kk + 1 && #[trigger] neighbour(pos, j) == (p.0 as int, p.1 as int)
                        && holds(map@, p.0 as int, p.1 as int, Content::Scarecrow)),
                )) by {
                    assert forall|p: (usize, usize)| (exists|j: int| 0 <= j < kk + 1 && #[trigger] neighbour(pos, j) == (p.0 as int, p.1 as int)
                        && holds(map@, p.0 as int, p.1 as int, Content::Scarecrow))
                        implies knowledge.zombies@.contains(p) by {
                        let j = choose|j: int| 0 <= j < kk + 1 && #[trigger] neighbour(pos, j) == (p.0 as int, p.1 as int)
                            && holds(map@, p.0 as int, p.1 as int, Content::Scarecrow);
                        if j < kk {
                            assert(zs.contains(p));
                        }
                    }
                }
                assert(knowledge.shelters@ =~= old(knowledge).shelters@.union(
                    Set::new(|p: (usize, usize)| exists|j: int| 0 <= j < kk + 1 && #[trigger] neighbour(pos, j) == (p.0 as int, p.1 as int)
                        && holds(map@, p.0 as int, p.1 as int, Content::Building)),
                )) by {
                    assert forall|p: (usize, usize)| (exists|j: int| 0 <= j < kk + 1 && #[trigger] neighbour(pos, j) == (p.0 as int, p.1 as int)
                        && holds(map@, p.0 as int, p.1 as int, Content::Building))
                        implies knowledge.shelters@.contains(p) by {
                        let j = choose|j: int| 0 <= j < kk + 1 && #[trigger] neighbour(pos, j) == (p.0 as int, p.1 as int)
                            && holds(map@, p.0 as int, p.1 as int, Content::Building);
                        if j < kk {
                            assert(ss.contains(p));
                        }
                    }
                }
            }
            k = k + 1;
        }
        assert(knowledge.zombies@ =~= old(knowledge).zombies@.union(seen_around(map@, pos, Content::Scarecrow)));
        assert(knowledge.shelters@ =~= old(knowledge).shelters@.union(seen_around(map@, pos, Content::Building)));
    } else {
        let mut i: usize = 0;
        while i < map.len()
            invariant
                i <= map@.len(),
                knowledge.zombies@ == old(knowledge).zombies@.union(
                    Set::new(|p: (usize, usize)| p.0 < i && holds(map@, p.0 as int, p.1 as int, Content::Scarecrow)),
                ),
                knowledge.shelters@ == old(knowledge).shelters@.union(
                    Set::new(|p: (usize, usize)| p.0 < i && holds(map@, p.0 as int, p.1 as int, Content::Building)),
                ),
                knowledge.path == old(knowledge).path,
                knowledge.path_index == old(knowledge).path_index,
            decreases map@.len() - i,
        {
            let row = &map[i];
            let mut j: usize = 0;
            while j < row.len()
                invariant
                    i < map@.len(),
                    row@ == map@[i as int]@,
                    j <= row@.len(),
                    knowledge.zombies@ == old(knowledge).zombies@.union(
                        Set::new(|p: (usize, usize)| (p.0 < i || (p.0 == i && p.1 < j)) && holds(map@, p.0 as int, p.1 as int, Content::Scarecrow)),
                    ),
                    knowledge.shelters@ == old(knowledge).shelters@.union(
                        Set::new(|p: (usize, usize)| (p.0 < i || (p.0 == i && p.1 < j)) && holds(map@, p.0 as int, p.1 as int, Content::Building)),
                    ),
                    knowledge.path == old(knowledge).path,
                    knowledge.path_index == old(knowledge).path_index,
                decreases row@.len() - j,
            {
                match &row[j] {
                    None => {},
                    Some(t) => {
                        match t {
                            Content::Building => {
                                knowledge.shelters.insert((i, j));
                            },
                            Content::Scarecrow => {
                                knowledge.zombies.insert((i, j));
                            },
                            _ => {},
                        }
                    },
                }
                j = j + 1;
                assert(knowledge.zombies@ =~= old(knowledge).zombies@.union(
                    Set::new(|p: (usize, usize)| (p.0 < i || (p.0 == i && p.1 < j)) && holds(map@, p.0 as int, p.1 as int, Content::Scarecrow)),
                ));
                assert(knowledge.shelters@ =~= old(knowledge).shelters@.union(
                    Set::new(|p: (usize, usize)| (p.0 < i || (p.0 == i && p.1 < j)) && holds(map@, p.0 as int, p.1 as int, Content::Building)),
                ));
            }
            i = i + 1;
            assert(knowledge.zombies@ =~= old(knowledge).zombies@.union(
                Set::new(|p: (usize, usize)| p.0 < i && holds(map@, p.0 as int, p.1 as int, Content::Scarecrow)),
            ));
            assert(knowledge.shelters@ =~= old(knowledge).shelters@.union(
                Set::new(|p: (usize, usize)| p.0 < i && holds(map@, p.0 as int, p.1 as int, Content::Building)),
            ));
        }
        assert(knowledge.zombies@ =~= old(knowledge).zombies@.union(seen_anywhere(map@, Content::Scarecrow)));
        assert(knowledge.shelters@ =~= old(knowledge).shelters@.union(seen_anywhere(map@, Content::Building)));
    }
}

} // verus!
