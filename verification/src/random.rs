use vstd::prelude::*;
use rand::Rng;
use crate::exploration::watched_tile;
use crate::grid::i32_max;
use crate::position_set::PositionSet;
use crate::types::Direction;

verus! {

#[verifier::external_type_specification]
#[verifier::external_body]
pub struct ExThreadRng(rand::rngs::ThreadRng);

/// `rand::thread_rng`: a handle on the generator of the current thread.
/// Nothing is claimed of it.
#[verifier::external_body]
fn thread_rng() -> rand::rngs::ThreadRng {
    rand::thread_rng()
}

/// `Rng::gen_range` on `0..n`: rand panics on an empty range, so `n` must
/// be positive, and draws a number of the range. The contract claims only
/// that the number is below `n`; which one comes out is chance.
#[verifier::external_body]
fn gen_range_below(rng: &mut rand::rngs::ThreadRng, n: usize) -> (r: usize)
    requires
        n > 0,
    ensures
        r < n,
{
    rng.gen_range(0..n)
}

/// The direction that a roll of a four-sided die stands for.
pub open spec fn roll_direction(r: usize) -> Direction {
    if r == 0 {
        Direction::Up
    } else if r == 1 {
        Direction::Down
    } else if r == 2 {
        Direction::Right
    } else {
        Direction::Left
    }
}

/// The direction for roll `r`: up, down, right, left; left beyond.
pub fn direction_from_roll(r: usize) -> (d: Direction)
    ensures
        d == roll_direction(r),
{
    match r {
        0 => Direction::Up,
        1 => Direction::Down,
        2 => Direction::Right,
        3 => Direction::Left,
        _ => Direction::Left,
    }
}

/// A direction drawn at random, each of the four being equally likely.
pub fn generate_random_direction() -> (d: Direction)
    ensures
        exists|r: usize| r < 4 && d == roll_direction(r),
{
    let mut rng = thread_rng();
    let r = gen_range_below(&mut rng, 4);
    direction_from_roll(r)
}

/// The direction of a walk for a roll `r` of a two-sided die: the first
/// direction on 1, the second otherwise.
pub fn walk_direction_from_roll(dirs: (Direction, Direction), r: usize) -> (d: Direction)
    ensures
        d == if r == 1 {
            dirs.0
        } else {
            dirs.1
        },
{
    if r == 1 {
        dirs.0
    } else {
        dirs.1
    }
}

/// One of the two directions, drawn at random.
pub fn pick_walk_direction(dirs: (Direction, Direction)) -> (d: Direction)
    ensures
        d == dirs.0 || d == dirs.1,
{
    let mut rng = thread_rng();
    let r = gen_range_below(&mut rng, 2);
    walk_direction_from_roll(dirs, r)
}

/// A known zombie stands on the tile looked at before going in `dir`.
pub open spec fn blocked(pos: (usize, usize), zombies: Set<(usize, usize)>, dir: Direction) -> bool {
    match watched_tile(pos, dir) {
        Some(t) => zombies.contains(t),
        None => false,
    }
}

/// All four directions are blocked.
pub open spec fn surrounded(pos: (usize, usize), zombies: Set<(usize, usize)>) -> bool {
    &&& blocked(pos, zombies, Direction::Up)
    &&& blocked(pos, zombies, Direction::Down)
    &&& blocked(pos, zombies, Direction::Left)
    &&& blocked(pos, zombies, Direction::Right)
}

/// Whether going in `dir` is not blocked.
fn is_free(pos: (usize, usize), zombies: &PositionSet, dir: Direction) -> (r: bool)
    requires
        pos.0 <= i32_max(),
        pos.1 <= i32_max(),
    ensures
        r == !blocked(pos, zombies@, dir),
{
    !crate::exploration::check_cannot_go(pos, zombies, &dir).0
}

/// The directions among the first `r` of up, down, right, left that are
/// not blocked, in that order.
pub open spec fn free_upto(pos: (usize, usize), zombies: Set<(usize, usize)>, r: int) -> Seq<Direction>
    decreases r,
{
    if r <= 0 {
        Seq::empty()
    } else {
        let f = free_upto(pos, zombies, r - 1);
        if blocked(pos, zombies, roll_direction((r - 1) as usize)) {
            f
        } else {
            f.push(roll_direction((r - 1) as usize))
        }
    }
}

/// The free directions, in the order up, down, right, left.
pub open spec fn free_list(pos: (usize, usize), zombies: Set<(usize, usize)>) -> Seq<Direction> {
    free_upto(pos, zombies, 4)
}

proof fn lemma_free_list(pos: (usize, usize), zombies: Set<(usize, usize)>)
    ensures
        free_list(pos, zombies).len() == 0 <==> surrounded(pos, zombies),
        forall|i: int| 0 <= i < free_list(pos, zombies).len() ==> !blocked(pos, zombies, #[trigger] free_list(pos, zombies)[i]),
{
    reveal_with_fuel(free_upto, 5);
    assert(roll_direction(0) == Direction::Up);
    assert(roll_direction(1) == Direction::Down);
    assert(roll_direction(2) == Direction::Right);
    assert(roll_direction(3) == Direction::Left);
}

/// The directions that no known zombie blocks, in the order up, down, right,
/// left.
pub fn free_directions(pos: (usize, usize), zombies: &PositionSet) -> (v: Vec<Direction>)
    requires
        pos.0 <= i32_max(),
        pos.1 <= i32_max(),
    ensures
        v@ == free_list(pos, zombies@),
{
    let mut free: Vec<Direction> = Vec::new();
    let mut r: usize = 0;
    while r < 4
        invariant
            r <= 4,
            pos.0 <= i32_max(),
            pos.1 <= i32_max(),
            free@ == free_upto(pos, zombies@, r as int),
        decreases 4 - r,
    {
        let d = direction_from_roll(r);
        if is_free(pos, zombies, d) {
            free.push(d);
        }
        r = r + 1;
    }
    free
}

/// The pair of free directions that draws `a` and `b` pick: the `a`-th and
/// the `b`-th free direction; `None` when every way is blocked.
pub fn free_pair_from_draws(pos: (usize, usize), zombies: &PositionSet, a: usize, b: usize) -> (r: Option<
    (Direction, Direction),
>)
    requires
        pos.0 <= i32_max(),
        pos.1 <= i32_max(),
        free_list(pos, zombies@).len() > 0 ==> a < free_list(pos, zombies@).len() && b
            < free_list(pos, zombies@).len(),
    ensures
        r == if free_list(pos, zombies@).len() == 0 {
            None
        } else {
            Some((free_list(pos, zombies@)[a as int], free_list(pos, zombies@)[b as int]))
        },
{
    let free = free_directions(pos, zombies);
    if free.len() == 0 {
        None
    } else {
        Some((free[a], free[b]))
    }
}

/// Two directions, each drawn at random among those that are not blocked,
/// or `None` when all are blocked. Each pair of free directions is as likely
/// as when pairs of directions are drawn until both are free.
pub fn random_free_pair(pos: (usize, usize), zombies: &PositionSet) -> (r: Option<(Direction, Direction)>)
    requires
        pos.0 <= i32_max(),
        pos.1 <= i32_max(),
    ensures
        r is None <==> surrounded(pos, zombies@),
        r matches Some(p) ==> free_list(pos, zombies@).contains(p.0) && free_list(
            pos,
            zombies@,
        ).contains(p.1),
        r matches Some(p) ==> !blocked(pos, zombies@, p.0) && !blocked(pos, zombies@, p.1),
        r matches Some(p) ==> exists|a: int, b: int|
            0 <= a < free_list(pos, zombies@).len() && 0 <= b < free_list(pos, zombies@).len() && p == (
                free_list(pos, zombies@)[a],
                free_list(pos, zombies@)[b],
            ),
{
    proof {
        lemma_free_list(pos, zombies@);
    }
    let n = free_directions(pos, zombies).len();
    if n == 0 {
        None
    } else {
        let mut rng = thread_rng();
        let a = gen_range_below(&mut rng, n);
        let b = gen_range_below(&mut rng, n);
        let r = free_pair_from_draws(pos, zombies, a, b);
        proof {
            let f = free_list(pos, zombies@);
            assert(f.contains(f[a as int]));
            assert(f.contains(f[b as int]));
            assert(r == Some((f[a as int], f[b as int])));
        }
        r
    }
}

/// The direction kept from six draws: the first one that is not blocked,
/// looking at the draws in order; the sixth when the first five are blocked.
pub open spec fn safe_choice_from(
    pos: (usize, usize),
    zombies: Set<(usize, usize)>,
    draws: Seq<Direction>,
    k: int,
) -> Direction
    decreases 5 - k,
{
    if k >= 5 || !blocked(pos, zombies, draws[k]) {
        draws[k]
    } else {
        safe_choice_from(pos, zombies, draws, k + 1)
    }
}

/// Of six drawn directions, keeps the first that no known zombie blocks, or
/// the sixth when the first five are all blocked.
pub fn choose_safe_direction(pos: (usize, usize), zombies: &PositionSet, draws: &Vec<Direction>) -> (d: Direction)
    requires
        pos.0 <= i32_max(),
        pos.1 <= i32_max(),
        draws@.len() == 6,
    ensures
        d == safe_choice_from(pos, zombies@, draws@, 0),
{
    let mut k: usize = 0;
    while k < 5 && !is_free(pos, zombies, draws[k])
        invariant
            k <= 5,
            draws@.len() == 6,
            pos.0 <= i32_max(),
            pos.1 <= i32_max(),
            safe_choice_from(pos, zombies@, draws@, 0) == safe_choice_from(pos, zombies@, draws@, k as int),
        decreases 5 - k,
    {
        k = k + 1;
    }
    draws[k]
}

/// A random direction, drawn again up to five times while it is blocked;
/// after the fifth new draw it is kept whatever it is. The six draws are made
/// at once and `choose_safe_direction` keeps one of them; which direction
/// comes out is chance, and any of the four can.
pub fn random_safe_direction(pos: (usize, usize), zombies: &PositionSet) -> (d: Direction)
    requires
        pos.0 <= i32_max(),
        pos.1 <= i32_max(),
    ensures
        exists|draws: Seq<Direction>| draws.len() == 6 && d == safe_choice_from(pos, zombies@, draws, 0),
{
    let mut draws: Vec<Direction> = Vec::new();
    let mut n: usize = 0;
    while n < 6
        invariant
            n <= 6,
            draws@.len() == n,
        decreases 6 - n,
    {
        draws.push(generate_random_direction());
        n = n + 1;
    }
    let d = choose_safe_direction(pos, zombies, &draws);
    assert(draws@.len() == 6 && d == safe_choice_from(pos, zombies@, draws@, 0));
    d
}

} // verus!
