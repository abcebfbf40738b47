use vstd::prelude::*;

use crate::direction::{coords, Direction, Pos};
use crate::packet::Packet;
use crate::route::{greedy_pair, is_prohibited, pick};

verus! {

/// tokio's `mpsc::Sender`, the sending end of a bounded channel, carried
/// through as an opaque handle.
#[verifier::external_type_specification]
#[verifier::external_body]
#[verifier::reject_recursive_types(T)]
pub struct ExSender<T>(tokio::sync::mpsc::Sender<T>);

/// tokio's `mpsc::Receiver`, the receiving end of a bounded channel,
/// carried through as an opaque handle.
#[verifier::external_type_specification]
#[verifier::external_body]
#[verifier::reject_recursive_types(T)]
pub struct ExReceiver<T>(tokio::sync::mpsc::Receiver<T>);

/// One tile of the mesh: its coordinates, its pacing rates in hops per second
/// (0 for none), and the sending end of its local injection queue.
pub struct MeshNode {
    pub x: u8,
    pub y: u8,
    pub tx_rate: u64,
    pub rx_rate: u64,
    pub tx_local: tokio::sync::mpsc::Sender<Packet>,
}

impl MeshNode {
    /// A tile at `(x, y)` whose local injection queue is fed through
    /// `tx_local`.
    pub fn init_channeless(
        x: u8,
        y: u8,
        tx_rate: u64,
        rx_rate: u64,
        tx_local: tokio::sync::mpsc::Sender<Packet>,
    ) -> (r: Self)
        ensures
            r.x == x,
            r.y == y,
            r.tx_rate == tx_rate,
            r.rx_rate == rx_rate,
            r.tx_local == tx_local,
    {
        MeshNode { x, y, tx_rate, rx_rate, tx_local }
    }

    /// The two greedy moves from `src_pos` toward `dest_pos`, best first; the
    /// second stands in when turn restriction forbids the first.
    pub fn greedy_move(src_pos: Pos, dest_pos: Pos) -> (r: [Direction; 2])
        requires
            src_pos != dest_pos,
        ensures
            (r@[0], r@[1]) == greedy_pair(coords(src_pos), coords(dest_pos)),
    {
        let x_delta: i16 = dest_pos.0 as i16 - src_pos.0 as i16;
        let y_delta: i16 = dest_pos.1 as i16 - src_pos.1 as i16;
        if x_delta > 0 && y_delta > 0 {
            [Direction::Down, Direction::Right]
        } else if x_delta > 0 && y_delta < 0 {
            [Direction::Right, Direction::Up]
        } else if x_delta < 0 && y_delta > 0 {
            [Direction::Left, Direction::Down]
        } else if x_delta < 0 && y_delta < 0 {
            [Direction::Left, Direction::Up]
        } else if x_delta == 0 && y_delta < 0 {
            [Direction::Up, Direction::Down]
        } else if x_delta == 0 && y_delta > 0 {
            [Direction::Down, Direction::Up]
        } else if y_delta == 0 && x_delta < 0 {
            [Direction::Left, Direction::Right]
        } else {
            [Direction::Right, Direction::Left]
        }
    }

    /// The next hop from this tile toward `dest` after a hop in `prev_dir`:
    /// the best greedy move unless the turn from `prev_dir` into it is
    /// prohibited, else the second best.
    pub fn calc_route(&self, dest: Pos, prev_dir: &Direction) -> (r: Direction)
        requires
            (self.x, self.y) != dest,
        ensures
            r == pick(greedy_pair(coords((self.x, self.y)), coords(dest)), *prev_dir),
    {
        let greedy_preferences = MeshNode::greedy_move((self.x, self.y), dest);
        if is_prohibited(prev_dir, &greedy_preferences[0]) {
            greedy_preferences[1]
        } else {
            greedy_preferences[0]
        }
    }
}

} // verus!
