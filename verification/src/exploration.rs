use vstd::prelude::*;
use crate::grid::{i32_max, in_map, neighbour, neighbour_in_map, dims_fit_i32};
use crate::position_set::PositionSet;
use crate::types::{Content, Direction};

verus! {

/// How many of the first `n` tiles of `row` are unknown.
pub open spec fn unknown_in_row<T>(row: Seq<Option<T>>, n: int) -> nat
    decreases n,
{
    if n <= 0 {
        0
    } else {
        unknown_in_row(row, n - 1) + if row[n - 1] is None { 1nat } else { 0nat }
    }
}

/// How many of the tiles in column `j` of the first `n` rows are unknown.
pub open spec fn unknown_in_column<T>(map: Seq<Vec<Option<T>>>, j: int, n: int) -> nat
    decreases n,
{
    if n <= 0 {
        0
    } else {
        unknown_in_column(map, j, n - 1) + if map[n - 1]@[j] is None { 1nat } else { 0nat }
    }
}

/// How unexplored the zone around `(i, j)` is: the unknown tiles of row `i`
/// plus those of column `j`, over the square of side `map.len()`.
pub open spec fn zone_score<T>(map: Seq<Vec<Option<T>>>, i: int, j: int) -> nat {
    unknown_in_row(map[i]@, map[i]@.len() as int) + unknown_in_column(map, j, map.len() as int)
}

/// `a` comes before `b` when the square is read row by row.
pub open spec fn reads_before(a: (int, int), b: (int, int)) -> bool {
    a.0 < b.0 || (a.0 == b.0 && a.1 < b.1)
}

/// `r` is the first tile, row by row, of highest positive score; `(0, 0)`
/// when every score is zero.
pub open spec fn most_unvisited<T>(map: Seq<Vec<Option<T>>>, r: (usize, usize)) -> bool {
    let dim = map.len() as int;
    ||| r == (0usize, 0usize) && forall|i: int, j: int|
        0 <= i < dim && 0 <= j < dim ==> #[trigger] zone_score(map, i, j) == 0
    ||| {
        &&& r.0 < dim && r.1 < dim
        &&& zone_score(map, r.0 as int, r.1 as int) > 0
        &&& forall|i: int, j: int|
            0 <= i < dim && 0 <= j < dim ==> #[trigger] zone_score(map, i, j) <= zone_score(
                map,
                r.0 as int,
                r.1 as int,
            )
        &&& forall|i: int, j: int|
            0 <= i < dim && 0 <= j < dim && reads_before((i, j), (r.0 as int, r.1 as int))
                ==> #[trigger] zone_score(map, i, j) < zone_score(map, r.0 as int, r.1 as int)
    }
}

proof fn lemma_unknown_in_row_bound<T>(row: Seq<Option<T>>, n: int)
    requires
        0 <= n,
    ensures
        unknown_in_row(row, n) <= n,
    decreases n,
{
    if n > 0 {
        lemma_unknown_in_row_bound(row, n - 1);
    }
}

proof fn lemma_unknown_in_column_bound<T>(map: Seq<Vec<Option<T>>>, j: int, n: int)
    requires
        0 <= n,
    ensures
        unknown_in_column(map, j, n) <= n,
    decreases n,
{
    if n > 0 {
        lemma_unknown_in_column_bound(map, j, n - 1);
    }
}

/// The square zone (row, column) with the most unknown tiles in its row and
/// column, the first such row by row; `(0, 0)` when all is known.
pub fn find_most_unvisited_zone<T>(map: &Vec<Vec<Option<T>>>) -> (r: (usize, usize))
    requires
        forall|i: int| 0 <= i < map@.len() ==> #[trigger] map@[i]@.len() >= map@.len(),
        forall|i: int| 0 <= i < map@.len() ==> #[trigger] map@[i]@.len() + map@.len() <= usize::MAX,
    ensures
        most_unvisited(map@, r),
{
    let dim = map.len();
    let mut row_unknown: Vec<usize> = Vec::new();
    let mut i: usize = 0;
    while i < dim
        invariant
            dim == map@.len(),
            i <= dim,
            row_unknown@.len() == i,
            forall|a: int| 0 <= a < i ==> #[trigger] row_unknown@[a] == unknown_in_row(
                map@[a]@,
                map@[a]@.len() as int,
            ),
        decreases dim - i,
    {
        let row = &map[i];
        let mut count: usize = 0;
        let mut j: usize = 0;
        while j < row.len()
            invariant
                row@ == map@[i as int]@,
                j <= row@.len(),
                count == unknown_in_row(row@, j as int),
            decreases row@.len() - j,
        {
            proof {
                lemma_unknown_in_row_bound(row@, j as int);
            }
            if row[j].is_none() {
                count = count + 1;
            }
            j = j + 1;
        }
        row_unknown.push(count);
        i = i + 1;
    }
    let mut col_unknown: Vec<usize> = Vec::new();
    let mut j: usize = 0;
    while j < dim
        invariant
            dim == map@.len(),
            j <= dim,
            col_unknown@.len() == j,
            forall|i: int| 0 <= i < dim ==> #[trigger] map@[i]@.len() >= dim,
            forall|b: int| 0 <= b < j ==> #[trigger] col_unknown@[b] == unknown_in_column(
                map@,
                b,
                dim as int,
            ),
        decreases dim - j,
    {
        let mut count: usize = 0;
        let mut i: usize = 0;
        while i < dim
            invariant
                dim == map@.len(),
                j < dim,
                i <= dim,
                forall|i: int| 0 <= i < dim ==> #[trigger] map@[i]@.len() >= dim,
                count == unknown_in_column(map@, j as int, i as int),
            decreases dim - i,
        {
            proof {
                lemma_unknown_in_column_bound(map@, j as int, i as int);
            }
            if map[i][j].is_none() {
                count = count + 1;
            }
            i = i + 1;
        }
        col_unknown.push(count);
        j = j + 1;
    }
    let mut best_value: usize = 0;
    let mut best: (usize, usize) = (0, 0);
    let mut i: usize = 0;
    while i < dim
        invariant
            dim == map@.len(),
            i <= dim,
            row_unknown@.len() == dim,
            col_unknown@.len() == dim,
            forall|a: int| 0 <= a < dim ==> #[trigger] row_unknown@[a] == unknown_in_row(
                map@[a]@,
                map@[a]@.len() as int,
            ),
            forall|b: int| 0 <= b < dim ==> #[trigger] col_unknown@[b] == unknown_in_column(
                map@,
                b,
                dim as int,
            ),
            forall|a: int| 0 <= a < dim ==> #[trigger] map@[a]@.len() + dim <= usize::MAX,
            best_value == 0 ==> best == (0usize, 0usize) && forall|a: int, b: int|
                0 <= a < i && 0 <= b < dim ==> #[trigger] zone_score(map@, a, b) == 0,
            best_value > 0 ==> {
                &&& best.0 < i && best.1 < dim
                &&& zone_score(map@, best.0 as int, best.1 as int) == best_value
                &&& forall|a: int, b: int|
                    0 <= a < i && 0 <= b < dim ==> #[trigger] zone_score(map@, a, b) <= best_value
                &&& forall|a: int, b: int|
                    0 <= a < dim && 0 <= b < dim && reads_before((a, b), (best.0 as int, best.1 as int))
                        ==> #[trigger] zone_score(map@, a, b) < best_value
            },
        decreases dim - i,
    {
        let mut j: usize = 0;
        while j < dim
            invariant
                dim == map@.len(),
                i < dim,
                j <= dim,
                row_unknown@.len() == dim,
                col_unknown@.len() == dim,
                forall|a: int| 0 <= a < dim ==> #[trigger] row_unknown@[a] == unknown_in_row(
                    map@[a]@,
                    map@[a]@.len() as int,
                ),
                forall|b: int| 0 <= b < dim ==> #[trigger] col_unknown@[b] == unknown_in_column(
                    map@,
                    b,
                    dim as int,
                ),
                forall|a: int| 0 <= a < dim ==> #[trigger] map@[a]@.len() + dim <= usize::MAX,
                best_value == 0 ==> best == (0usize, 0usize) && forall|a: int, b: int|
                    0 <= a < dim && 0 <= b < dim && reads_before((a, b), (i as int, j as int))
                        ==> #[trigger] zone_score(map@, a, b) == 0,
                best_value > 0 ==> {
                    &&& reads_before((best.0 as int, best.1 as int), (i as int, j as int))
                    &&& best.0 < dim && best.1 < dim
                    &&& zone_score(map@, best.0 as int, best.1 as int) == best_value
                    &&& forall|a: int, b: int|
                        0 <= a < dim && 0 <= b < dim && reads_before((a, b), (i as int, j as int))
                            ==> #[trigger] zone_score(map@, a, b) <= best_value
                    &&& forall|a: int, b: int|
                        0 <= a < dim && 0 <= b < dim && reads_before(
                            (a, b),
                            (best.0 as int, best.1 as int),
                        ) ==> #[trigger] zone_score(map@, a, b) < best_value
                },
            decreases dim - j,
        {
            proof {
                lemma_unknown_in_row_bound(map@[i as int]@, map@[i as int]@.len() as int);
                lemma_unknown_in_column_bound(map@, j as int, dim as int);
            }
            let value = row_unknown[i] + col_unknown[j];
            assert(value == zone_score(map@, i as int, j as int));
            if value > best_value {
                best_value = value;
                best = (i, j);
            }
            j = j + 1;
        }
        i = i + 1;
    }
    best
}

/// The two directions that lead from `now` towards `to`: horizontal first,
/// then vertical.
pub open spec fn heading(now: (usize, usize), to: (usize, usize)) -> (Direction, Direction) {
    if now.0 < to.0 {
        if now.1 < to.1 {
            (Direction::Right, Direction::Down)
        } else {
            (Direction::Left, Direction::Down)
        }
    } else {
        if now.1 < to.1 {
            (Direction::Right, Direction::Up)
        } else {
            (Direction::Left, Direction::Up)
        }
    }
}

/// The distance reported beside the heading: the gap between the row and
/// the column of `now`.
pub open spec fn reported_distance(now: (usize, usize)) -> int {
    if now.0 >= now.1 {
        now.0 - now.1
    } else {
        now.1 - now.0
    }
}

/// The directions leading from `now` to `to`, with a distance.
pub fn eval_direction(now: (usize, usize), to: (usize, usize)) -> (r: ((Direction, Direction), usize))
    requires
        now.0 <= i32_max(),
        now.1 <= i32_max(),
    ensures
        r.0 == heading(now, to),
        r.1 == reported_distance(now),
{
    let distance = if now.0 >= now.1 {
        now.0 - now.1
    } else {
        now.1 - now.0
    };
    if now.0 < to.0 {
        if now.1 < to.1 {
            return ((Direction::Right, Direction::Down), distance);
        } else {
            return ((Direction::Left, Direction::Down), distance);
        }
    } else {
        if now.1 < to.1 {
            return ((Direction::Right, Direction::Up), distance)
        } else {
            return ((Direction::Left, Direction::Up), distance)
        }
    }
}

/// `new` has the rows and row lengths of `old`.
pub open spec fn same_shape<T>(new: Seq<Vec<Option<T>>>, old: Seq<Vec<Option<T>>>) -> bool {
    &&& new.len() == old.len()
    &&& forall|i: int| 0 <= i < old.len() ==> #[trigger] new[i]@.len() == old[i]@.len()
}

/// Forgets the tiles on which zombies stand, so that a route planned on the
/// map may cross them while Robert is escaping.
pub fn map_converter_escape<T>(old_map: Vec<Vec<Option<T>>>, positions: &PositionSet) -> (r: Vec<
    Vec<Option<T>>,
>)
    requires
        forall|p: (usize, usize)| #[trigger]
            positions@.contains(p) ==> in_map(old_map@, p.0 as int, p.1 as int),
    ensures
        same_shape(r@, old_map@),
        forall|i: int, j: int|
            #![trigger r@[i]@[j]]
            in_map(old_map@, i, j) ==> r@[i]@[j] == if positions@.contains((i as usize, j as usize)) {
                None
            } else {
                old_map@[i]@[j]
            },
{
    let ghost old = old_map@;
    let old_map_len = old_map.len();
    let mut map = old_map;
    let zombies = positions.to_vec();
    let mut n: usize = 0;
    while n < zombies.len()
        invariant
            n <= zombies@.len(),
            old.len() == old_map_len,
            zombies@.to_set() == positions@,
            forall|p: (usize, usize)| #[trigger]
                positions@.contains(p) ==> in_map(old, p.0 as int, p.1 as int),
            same_shape(map@, old),
            forall|i: int, j: int|
                #![trigger map@[i]@[j]]
                in_map(old, i, j) ==> map@[i]@[j] == if exists|a: int|
                    0 <= a < n && #[trigger] zombies@[a] == (i as usize, j as usize) {
                    None
                } else {
                    old[i]@[j]
                },
        decreases zombies@.len() - n,
    {
        let z = zombies[n];
        assert(zombies@.contains(z));
        assert(zombies@.to_set().contains(z));
        assert(in_map(old, z.0 as int, z.1 as int));
        assert(map@[z.0 as int]@.len() == old[z.0 as int]@.len());
        let ghost before = map@;
        map[z.0][z.1] = None;
        n = n + 1;
        assert forall|i: int, j: int| in_map(old, i, j) implies #[trigger] map@[i]@[j] == if exists|a: int|
            0 <= a < n && #[trigger] zombies@[a] == (i as usize, j as usize) {
            None
        } else {
            old[i]@[j]
        } by {
            if (i, j) == (z.0 as int, z.1 as int) {
                assert(zombies@[n - 1] == (i as usize, j as usize));
            } else {
                assert(map@[i]@[j] == before[i]@[j]);
                if exists|a: int| 0 <= a < n && #[trigger] zombies@[a] == (i as usize, j as usize) {
                    let a = choose|a: int| 0 <= a < n && #[trigger] zombies@[a] == (i as usize, j as usize);
                    if a == n - 1 {
                        assert(old.len() == old_map_len);
                        assert(old[i]@.len() == old[i].len());
                        assert(false);
                    }
                }
            }
        }
    }
    assert forall|i: int, j: int| in_map(old, i, j) implies #[trigger] map@[i]@[j] == if positions@.contains((i as usize, j as usize)) {
        None
    } else {
        old[i]@[j]
    } by {
        if positions@.contains((i as usize, j as usize)) {
            assert(zombies@.to_set().contains((i as usize, j as usize)));
            let a = choose|a: int| 0 <= a < zombies@.len() && zombies@[a] == (i as usize, j as usize);
            assert(zombies@[a] == (i as usize, j as usize));
        } else {
            if exists|a: int| 0 <= a < n && #[trigger] zombies@[a] == (i as usize, j as usize) {
                let a = choose|a: int| 0 <= a < n && #[trigger] zombies@[a] == (i as usize, j as usize);
                assert(zombies@.contains(zombies@[a]));
            }
        }
    }
    map
}

/// `(i, j)` is one of the eight tiles around a position of `positions`.
pub open spec fn next_to_any(positions: Set<(usize, usize)>, i: int, j: int) -> bool {
    exists|p: (usize, usize), k: int|
        positions.contains(p) && 0 <= k < 8 && #[trigger] neighbour(p, k) == (i, j)
}

/// The `k`-th tile of the three by three block centred on `p`: `p` itself
/// for `k == 0`, else its `(k - 1)`-th neighbour.
pub open spec fn block_tile(p: (usize, usize), k: int) -> (int, int) {
    if k == 0 {
        (p.0 as int, p.1 as int)
    } else {
        neighbour(p, k - 1)
    }
}

/// `(i, j)` is a zombie's tile or one of the eight tiles around it.
pub open spec fn near_zombie(positions: Set<(usize, usize)>, i: int, j: int) -> bool {
    positions.contains((i as usize, j as usize)) || next_to_any(positions, i, j)
}

/// `r` is `old` with the tiles of the zombies at `positions`, and the tiles
/// around them, forgotten.
pub open spec fn converted_normal<T>(
    r: Seq<Vec<Option<T>>>,
    old: Seq<Vec<Option<T>>>,
    positions: Set<(usize, usize)>,
) -> bool {
    &&& same_shape(r, old)
    &&& forall|i: int, j: int|
        #![trigger r[i]@[j]]
        in_map(old, i, j) ==> r[i]@[j] == if near_zombie(positions, i, j) {
            None
        } else {
            old[i]@[j]
        }
}

/// `(i, j)` is in the block of one of the first `n` positions of `zs`, or is
/// one of the first `kk` tiles of the block of position `n`.
spec fn cleared_so_far(zs: Seq<(usize, usize)>, n: int, kk: int, i: int, j: int) -> bool {
    ||| exists|a: int, k: int| 0 <= a < n && 0 <= k < 9 && #[trigger] block_tile(zs[a], k) == (i, j)
    ||| exists|k: int| 0 <= k < kk && #[trigger] block_tile(zs[n], k) == (i, j)
}

/// Forgets the tile of each zombie and the tiles around it, so that a route
/// planned on the map keeps clear of them. Positions off the map change
/// nothing beyond the part of their block that lies on it.
pub fn map_converter_normal<T>(old_map: Vec<Vec<Option<T>>>, positions: &PositionSet) -> (r: Vec<
    Vec<Option<T>>,
>)
    requires
        forall|p: (usize, usize)| #[trigger]
            positions@.contains(p) ==> p.0 < i32_max() && p.1 < i32_max(),
        dims_fit_i32(old_map@),
    ensures
        converted_normal(r@, old_map@, positions@),
{
    let ghost old = old_map@;
    let old_len = old_map.len();
    let mut map = old_map;
    let zombies = positions.to_vec();
    let mut n: usize = 0;
    while n < zombies.len()
        invariant
            n <= zombies@.len(),
            old.len() == old_len,
            zombies@.to_set() == positions@,
            forall|p: (usize, usize)| #[trigger]
                positions@.contains(p) ==> p.0 < i32_max() && p.1 < i32_max(),
            same_shape(map@, old),
            forall|i: int, j: int|
                #![trigger map@[i]@[j]]
                in_map(old, i, j) ==> map@[i]@[j] == if cleared_so_far(zombies@, n as int, 0, i, j) {
                    None
                } else {
                    old[i]@[j]
                },
        decreases zombies@.len() - n,
    {
        let z = zombies[n];
        assert(zombies@.contains(z));
        assert(zombies@.to_set().contains(z));
        let mut k: usize = 0;
        while k < 9
            invariant
                n < zombies@.len(),
                z == zombies@[n as int],
                z.0 < i32_max() && z.1 < i32_max(),
                k <= 9,
                old.len() == old_len,
                same_shape(map@, old),
                forall|i: int, j: int|
                    #![trigger map@[i]@[j]]
                    in_map(old, i, j) ==> map@[i]@[j] == if cleared_so_far(zombies@, n as int, k as int, i, j) {
                        None
                    } else {
                        old[i]@[j]
                    },
            decreases 9 - k,
        {
            let ghost before = map@;
            let target: Option<(usize, usize)> = if k == 0 {
                if z.0 < map.len() && z.1 < map[z.0].len() {
                    Some(z)
                } else {
                    None
                }
            } else {
                neighbour_in_map(&map, z, k - 1)
            };
            proof {
                match target {
                    Some(p) => {
                        assert(block_tile(z, k as int) == (p.0 as int, p.1 as int));
                        assert(in_map(old, p.0 as int, p.1 as int));
                    },
                    None => {
                        assert(!in_map(map@, block_tile(z, k as int).0, block_tile(z, k as int).1));
                    },
                }
            }
            match target {
                Some(p) => {
                    map[p.0][p.1] = None;
                },
                None => {},
            }
            k = k + 1;
            assert forall|i: int, j: int| in_map(old, i, j) implies #[trigger] map@[i]@[j] == if cleared_so_far(zombies@, n as int, k as int, i, j) {
                None
            } else {
                old[i]@[j]
            } by {
                if block_tile(z, k - 1) == (i, j) {
                    assert(cleared_so_far(zombies@, n as int, k as int, i, j));
                } else {
                    match target {
                        Some(p) => {
                            assert((p.0 as int, p.1 as int) != (i, j));
                        },
                        None => {},
                    }
                    assert(map@[i]@[j] == before[i]@[j]);
                    if cleared_so_far(zombies@, n as int, k as int, i, j) {
                        if !(exists|a: int, kk: int| 0 <= a < n && 0 <= kk < 9 && #[trigger] block_tile(zombies@[a], kk) == (i, j)) {
                            let kk = choose|kk: int| 0 <= kk < k && #[trigger] block_tile(zombies@[n as int], kk) == (i, j);
                            assert(kk < k - 1);
                            assert(cleared_so_far(zombies@, n as int, k - 1, i, j));
                        }
                    }
                }
            }
        }
        n = n + 1;
        assert forall|i: int, j: int| in_map(old, i, j) implies #[trigger] map@[i]@[j] == if cleared_so_far(zombies@, n as int, 0, i, j) {
            None
        } else {
            old[i]@[j]
        } by {
            if cleared_so_far(zombies@, n - 1, 9, i, j) {
                if exists|a: int, k: int| 0 <= a < n - 1 && 0 <= k < 9 && #[trigger] block_tile(zombies@[a], k) == (i, j) {
                    let (a, k) = choose|a: int, k: int| 0 <= a < n - 1 && 0 <= k < 9 && #[trigger] block_tile(zombies@[a], k) == (i, j);
                    assert(cleared_so_far(zombies@, n as int, 0, i, j));
                } else {
                    let k = choose|k: int| 0 <= k < 9 && #[trigger] block_tile(zombies@[n - 1], k) == (i, j);
                    assert(cleared_so_far(zombies@, n as int, 0, i, j));
                }
            } else {
                if cleared_so_far(zombies@, n as int, 0, i, j) {
                    let (a, k) = choose|a: int, k: int| 0 <= a < n && 0 <= k < 9 && #[trigger] block_tile(zombies@[a], k) == (i, j);
                    assert(cleared_so_far(zombies@, n - 1, 9, i, j));
                }
            }
        }
    }
    assert forall|i: int, j: int| in_map(old, i, j) implies #[trigger] map@[i]@[j] == if near_zombie(positions@, i, j) {
        None
    } else {
        old[i]@[j]
    } by {
        assert(old.len() == old_len);
        assert(old[i]@.len() == old[i].len());
        if positions@.contains((i as usize, j as usize)) {
            let p = (i as usize, j as usize);
            assert(zombies@.to_set().contains(p));
            let a = choose|a: int| 0 <= a < zombies@.len() && zombies@[a] == p;
            assert(block_tile(zombies@[a], 0) == (i, j));
            assert(cleared_so_far(zombies@, n as int, 0, i, j));
        } else if next_to_any(positions@, i, j) {
            let (p, k) = choose|p: (usize, usize), k: int|
                positions@.contains(p) && 0 <= k < 8 && #[trigger] neighbour(p, k) == (i, j);
            assert(zombies@.to_set().contains(p));
            let a = choose|a: int| 0 <= a < zombies@.len() && zombies@[a] == p;
            assert(block_tile(zombies@[a], k + 1) == (i, j));
            assert(cleared_so_far(zombies@, n as int, 0, i, j));
        } else {
            if cleared_so_far(zombies@, n as int, 0, i, j) {
                let (a, k) = choose|a: int, k: int| 0 <= a < n && 0 <= k < 9 && #[trigger] block_tile(zombies@[a], k) == (i, j);
                assert(zombies@.contains(zombies@[a]));
                assert(positions@.contains(zombies@[a]));
                if k == 0 {
                    assert(zombies@[a] == (i as usize, j as usize));
                } else {
                    assert(neighbour(zombies@[a], k - 1) == (i, j));
                }
            }
        }
    }
    map
}

/// The tile that a step in `dir` reaches, as far as it has coordinates that
/// are not negative.
pub open spec fn watched_tile(pos: (usize, usize), dir: Direction) -> Option<(usize, usize)> {
    match dir {
        Direction::Up => if pos.0 >= 1 { Some(((pos.0 - 1) as usize, pos.1)) } else { None },
        Direction::Down => Some(((pos.0 + 1) as usize, pos.1)),
        Direction::Left => if pos.1 >= 1 { Some((pos.0, (pos.1 - 1) as usize)) } else { None },
        Direction::Right => Some((pos.0, (pos.1 + 1) as usize)),
    }
}

/// Whether a known zombie stops Robert from going in `dir`, and where it is.
pub fn check_cannot_go(pos: (usize, usize), zombies: &PositionSet, dir: &Direction) -> (r: (
    bool,
    Option<(usize, usize)>,
))
    requires
        pos.0 <= i32_max(),
        pos.1 <= i32_max(),
    ensures
        r == match watched_tile(pos, *dir) {
            Some(t) => if zombies@.contains(t) { (true, Some(t)) } else { (false, None) },
            None => (false, None),
        },
{
    let rob_x = pos.0;
    let rob_y = pos.1;
    match dir {
        Direction::Up => {
            if rob_x >= 1 {
                if zombies.contains((rob_x - 1, rob_y)) {
                    (true, Some((rob_x - 1, rob_y)))
                } else {
                    (false, None)
                }
            } else {
                (false, None)
            }
        },
        Direction::Down => {
            if zombies.contains((rob_x + 1, rob_y)) {
                (true, Some((rob_x + 1, rob_y)))
            } else {
                (false, None)
            }
        },
        Direction::Left => {
            if rob_y >= 1 {
                if zombies.contains((rob_x, rob_y - 1)) {
                    (true, Some((rob_x, rob_y - 1)))
                } else {
                    (false, None)
                }
            } else {
                (false, None)
            }
        },
        Direction::Right => {
            if zombies.contains((rob_x, rob_y + 1)) {
                (true, Some((rob_x, rob_y + 1)))
            } else {
                (false, None)
            }
        },
    }
}

/// How much of something a tile holds; zero for ranges and for contents
/// without an amount.
pub open spec fn quantity(c: Content) -> usize {
    match c {
        Content::Rock(x) | Content::Tree(x) | Content::Garbage(x) | Content::Coin(x)
        | Content::Water(x) | Content::Market(x) | Content::JollyBlock(x) | Content::Bush(x)
        | Content::Fish(x) => x,
        _ => 0,
    }
}

/// The amount held by a tile's content.
pub fn get_quantity(c: &Content) -> (q: usize)
    ensures
        q == quantity(*c),
{
    match c {
        Content::Rock(x) | Content::Tree(x) | Content::Garbage(x) | Content::Coin(x)
        | Content::Water(x) | Content::Market(x) | Content::JollyBlock(x) | Content::Bush(x)
        | Content::Fish(x) => *x,
        Content::Bin(_, _) | Content::Crate(_, _) | Content::Bank(_, _) => 0,
        Content::Fire | Content::Building | Content::Scarecrow | Content::Nothing => 0,
    }
}

} // verus!
