use vstd::prelude::*;

use crate::direction::{coords, fits_pos, neighbor, on_grid, step, Direction, Pos};
use crate::node::MeshNode;

verus! {

/// The turns that negative-first routing forbids: `Up` then `Left`, and
/// `Right` then `Down`.
pub open spec fn prohibited(prev: Direction, next: Direction) -> bool {
    ||| prev == Direction::Up && next == Direction::Left
    ||| prev == Direction::Right && next == Direction::Down
}

/// The greedy preference from `c` toward `d`, best move first, read off the
/// signs of the remaining offsets.
pub open spec fn greedy_pair(c: (int, int), d: (int, int)) -> (Direction, Direction) {
    let dx = d.0 - c.0;
    let dy = d.1 - c.1;
    if dx > 0 && dy > 0 {
        (Direction::Down, Direction::Right)
    } else if dx > 0 && dy < 0 {
        (Direction::Right, Direction::Up)
    } else if dx < 0 && dy > 0 {
        (Direction::Left, Direction::Down)
    } else if dx < 0 && dy < 0 {
        (Direction::Left, Direction::Up)
    } else if dx == 0 && dy < 0 {
        (Direction::Up, Direction::Down)
    } else if dx == 0 && dy > 0 {
        (Direction::Down, Direction::Up)
    } else if dy == 0 && dx < 0 {
        (Direction::Left, Direction::Right)
    } else {
        (Direction::Right, Direction::Left)
    }
}

/// The move that turn restriction keeps from a preference pair after a hop
/// in `prev`.
pub open spec fn pick(prefs: (Direction, Direction), prev: Direction) -> Direction {
    if prohibited(prev, prefs.0) {
        prefs.1
    } else {
        prefs.0
    }
}

/// `n` hops in direction `d`.
pub open spec fn run(d: Direction, n: int) -> Seq<Direction> {
    Seq::new(n as nat, |_i: int| d)
}

/// The path that the planner takes from `s` to `d`. Leftward moves come
/// first, then the vertical ones; otherwise the downward moves precede the
/// rightward ones, and the rightward moves precede the upward ones.
pub open spec fn planned_path(s: (int, int), d: (int, int)) -> Seq<Direction> {
    if d.0 < s.0 {
        run(Direction::Left, s.0 - d.0) + if d.1 < s.1 {
            run(Direction::Up, s.1 - d.1)
        } else {
            run(Direction::Down, d.1 - s.1)
        }
    } else if d.1 > s.1 {
        run(Direction::Down, d.1 - s.1) + run(Direction::Right, d.0 - s.0)
    } else {
        run(Direction::Right, d.0 - s.0) + run(Direction::Up, s.1 - d.1)
    }
}

/// The Manhattan distance between two positions.
pub open spec fn manhattan(s: (int, int), d: (int, int)) -> int {
    (if d.0 >= s.0 { d.0 - s.0 } else { s.0 - d.0 }) + (if d.1 >= s.1 { d.1 - s.1 } else { s.1 - d.1 })
}

/// Whether `p` lies in the bounding box of `s` and `d`.
pub open spec fn in_box(p: (int, int), s: (int, int), d: (int, int)) -> bool {
    &&& (s.0 <= p.0 <= d.0 || d.0 <= p.0 <= s.0)
    &&& (s.1 <= p.1 <= d.1 || d.1 <= p.1 <= s.1)
}

/// Whether a path holds no prohibited turn between consecutive hops.
pub open spec fn turn_free(path: Seq<Direction>) -> bool {
    forall|i: int| 0 <= i < path.len() - 1 ==> !prohibited(#[trigger] path[i], path[i + 1])
}

/// Whether `prev`, the last hop taken, lets the best greedy move from `c`
/// toward `d` through: after an upward hop no horizontal offset remains, and
/// after a rightward hop no downward offset does.
spec fn prev_consistent(prev: Direction, c: (int, int), d: (int, int)) -> bool {
    &&& prev == Direction::Up ==> c.0 == d.0
    &&& prev == Direction::Right ==> d.1 <= c.1
}

proof fn lemma_run_unfold(dir: Direction, n: int)
    requires
        n > 0,
    ensures
        run(dir, n) == seq![dir] + run(dir, n - 1),
{
    assert(run(dir, n) =~= seq![dir] + run(dir, n - 1));
}

proof fn lemma_run_empty(dir: Direction)
    ensures
        run(dir, 0) == Seq::<Direction>::empty(),
{
    assert(run(dir, 0) =~= Seq::<Direction>::empty());
}

/// The planned path from `c` starts with the best greedy move and goes on as
/// the planned path from the tile that move reaches.
proof fn lemma_planned_step(c: (int, int), d: (int, int))
    requires
        c != d,
    ensures
        planned_path(c, d) == seq![greedy_pair(c, d).0] + planned_path(
            neighbor(c, greedy_pair(c, d).0),
            d,
        ),
{
    let p = greedy_pair(c, d).0;
    let n = neighbor(c, p);
    lemma_run_empty(Direction::Left);
    lemma_run_empty(Direction::Right);
    lemma_run_empty(Direction::Up);
    lemma_run_empty(Direction::Down);
    if d.0 < c.0 {
        lemma_run_unfold(Direction::Left, c.0 - d.0);
        let v = if d.1 < c.1 {
            run(Direction::Up, c.1 - d.1)
        } else {
            run(Direction::Down, d.1 - c.1)
        };
        if d.0 == n.0 {
            assert(planned_path(n, d) =~= v);
        }
        assert(planned_path(c, d) =~= seq![p] + planned_path(n, d));
    } else if d.1 > c.1 {
        lemma_run_unfold(Direction::Down, d.1 - c.1);
        assert(planned_path(c, d) =~= seq![p] + planned_path(n, d));
    } else if d.0 > c.0 {
        lemma_run_unfold(Direction::Right, d.0 - c.0);
        assert(planned_path(c, d) =~= seq![p] + planned_path(n, d));
    } else {
        lemma_run_unfold(Direction::Up, c.1 - d.1);
        assert(planned_path(c, d) =~= seq![p] + planned_path(n, d));
    }
}

/// Whether the turn from `prev` into `next` is one that negative-first
/// routing forbids.
pub fn is_prohibited(prev: &Direction, next: &Direction) -> (r: bool)
    ensures
        r == prohibited(*prev, *next),
{
    matches!((prev, next), (Direction::Up, Direction::Left) | (Direction::Right, Direction::Down))
}

/// Takes one hop of a path under construction: keeps the best of the greedy
/// preferences unless the turn from `prev_dir` into it is prohibited, else
/// the second best; appends it to `path_vec` and moves `cur_pos` by it.
pub fn turn_restrict(
    path_vec: &mut Vec<Direction>,
    greedy_preferences: &[Direction; 2],
    prev_dir: &Direction,
    cur_pos: &mut Pos,
)
    requires
        pick((greedy_preferences@[0], greedy_preferences@[1]), *prev_dir) != Direction::Init,
        fits_pos(
            neighbor(
                coords(*old(cur_pos)),
                pick((greedy_preferences@[0], greedy_preferences@[1]), *prev_dir),
            ),
        ),
    ensures
        final(path_vec)@ == old(path_vec)@.push(
            pick((greedy_preferences@[0], greedy_preferences@[1]), *prev_dir),
        ),
        coords(*final(cur_pos)) == neighbor(
            coords(*old(cur_pos)),
            pick((greedy_preferences@[0], greedy_preferences@[1]), *prev_dir),
        ),
{
    let dir_chosen = if is_prohibited(prev_dir, &greedy_preferences[0]) {
        greedy_preferences[1]
    } else {
        greedy_preferences[0]
    };
    path_vec.push(dir_chosen);
    *cur_pos = step(*cur_pos, dir_chosen);
}

/// Plans the whole path from `cur_pos` to `dest_pos` under negative-first
/// turn restriction, one greedy hop at a time.
pub fn calc_path(cur_pos: Pos, dest_pos: Pos) -> (r: Vec<Direction>)
    ensures
        r@ == planned_path(coords(cur_pos), coords(dest_pos)),
        r@.len() == manhattan(coords(cur_pos), coords(dest_pos)),
        turn_free(r@),
{
    let ghost src = coords(cur_pos);
    let ghost d = coords(dest_pos);
    let mut pos = cur_pos;
    let mut path_vec: Vec<Direction> = Vec::new();
    let mut prev_dir = Direction::Init;
    while !(pos.0 == dest_pos.0 && pos.1 == dest_pos.1)
        invariant
            src == coords(cur_pos),
            d == coords(dest_pos),
            path_vec@ + planned_path(coords(pos), d) == planned_path(src, d),
            in_box(coords(pos), src, d),
            prev_consistent(prev_dir, coords(pos), d),
        decreases manhattan(coords(pos), d),
    {
        let greedy_preferences = MeshNode::greedy_move(pos, dest_pos);
        let ghost c = coords(pos);
        proof {
            assert(c != d);
            lemma_planned_step(c, d);
            assert(pick(greedy_pair(c, d), prev_dir) == greedy_pair(c, d).0);
            assert(in_box(neighbor(c, greedy_pair(c, d).0), src, d));
        }
        turn_restrict(&mut path_vec, &greedy_preferences, &prev_dir, &mut pos);
        prev_dir = path_vec[path_vec.len() - 1];
        assert(path_vec@ + planned_path(coords(pos), d) =~= planned_path(src, d));
    }
    assert(path_vec@ =~= planned_path(src, d));
    proof {
        lemma_planned_len(src, d);
        lemma_planned_turn_free(src, d);
    }
    path_vec
}

/// The planned path has as many hops as the Manhattan distance.
pub proof fn lemma_planned_len(s: (int, int), d: (int, int))
    ensures
        planned_path(s, d).len() == manhattan(s, d),
{
}

/// The planned path holds no prohibited turn.
pub proof fn lemma_planned_turn_free(s: (int, int), d: (int, int))
    ensures
        turn_free(planned_path(s, d)),
{
}

/// The position reached from `p` by taking the hops of `path` in order.
pub open spec fn walk(p: (int, int), path: Seq<Direction>) -> (int, int)
    decreases path.len(),
{
    if path.len() == 0 {
        p
    } else {
        walk(neighbor(p, path[0]), path.drop_first())
    }
}

proof fn lemma_walk_cons(p: (int, int), dir: Direction, rest: Seq<Direction>)
    ensures
        walk(p, seq![dir] + rest) == walk(neighbor(p, dir), rest),
{
    assert((seq![dir] + rest).drop_first() =~= rest);
}

/// Every prefix of the planned path from `c` to `d` leads to a tile in their
/// bounding box, and the whole path leads to `d`.
proof fn lemma_walk_planned(c: (int, int), d: (int, int))
    ensures
        forall|i: int|
            0 <= i <= planned_path(c, d).len() ==> in_box(
                #[trigger] walk(c, planned_path(c, d).take(i)),
                c,
                d,
            ),
        walk(c, planned_path(c, d)) == d,
    decreases manhattan(c, d),
{
    let path = planned_path(c, d);
    if c == d {
        assert(path.len() == 0);
        assert forall|i: int| 0 <= i <= path.len() implies in_box(
            #[trigger] walk(c, path.take(i)),
            c,
            d,
        ) by {
            assert(path.take(i).len() == 0);
        }
    } else {
        let p = greedy_pair(c, d).0;
        let n = neighbor(c, p);
        lemma_planned_step(c, d);
        let rest = planned_path(n, d);
        lemma_walk_planned(n, d);
        lemma_walk_cons(c, p, rest);
        assert(path.take(path.len() as int) =~= path);
        assert forall|i: int| 0 <= i <= path.len() implies in_box(
            #[trigger] walk(c, path.take(i)),
            c,
            d,
        ) by {
            if i == 0 {
                assert(path.take(0).len() == 0);
            } else {
                assert(path.take(i) =~= seq![p] + rest.take(i - 1));
                lemma_walk_cons(c, p, rest.take(i - 1));
                assert(in_box(walk(n, rest.take(i - 1)), n, d));
            }
        }
    }
}

/// A planned path leads from its source to its destination.
pub proof fn lemma_planned_path_reaches(s: (int, int), d: (int, int))
    ensures
        walk(s, planned_path(s, d)) == d,
{
    lemma_walk_planned(s, d);
}

/// On a `width` by `height` grid, every tile that a planned path passes
/// through, from its source to its destination, lies on the grid: a packet
/// on the boundary never tries to cross it.
pub proof fn lemma_path_stays_on_grid(s: (int, int), d: (int, int), width: int, height: int)
    requires
        on_grid(s, width, height),
        on_grid(d, width, height),
    ensures
        forall|i: int|
            0 <= i <= planned_path(s, d).len() ==> on_grid(
                #[trigger] walk(s, planned_path(s, d).take(i)),
                width,
                height,
            ),
{
    lemma_walk_planned(s, d);
    assert forall|i: int| 0 <= i <= planned_path(s, d).len() implies on_grid(
        #[trigger] walk(s, planned_path(s, d).take(i)),
        width,
        height,
    ) by {
        assert(in_box(walk(s, planned_path(s, d).take(i)), s, d));
    }
}

} // verus!
