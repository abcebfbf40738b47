use vstd::prelude::*;

use crate::direction::{Direction, Pos};

verus! {

/// What the fabric reports about a packet as it moves.
#[derive(Debug, PartialEq, Eq)]
pub enum Event {
    /// The packet reached the end of its path at `at`; `dest` is where it
    /// was addressed to.
    PacketArrived { id: usize, at: Pos, dest: Pos },
    /// The packet entered tile `at` over the link on its `recv_dir` side and
    /// still has hops to make.
    PacketReceived { id: usize, recv_dir: Direction, at: Pos },
    /// The packet left tile `from` over the link on its `send_dir` side.
    PacketSent { id: usize, send_dir: Direction, from: Pos },
}

/// The payload of a packet. The fabric never reads it.
#[derive(Debug)]
pub enum PacketData {
    Message(String),
    Integer(u64),
    Default,
}

impl Default for PacketData {
    fn default() -> (r: Self)
        ensures
            r is Default,
    {
        PacketData::Default
    }
}

/// The routing header of a packet.
#[derive(Debug)]
pub struct MetaData {
    /// Unique for the lifetime of the process.
    pub id: usize,
    /// The direction of the most recent hop.
    pub dir: Direction,
    /// Every hop from source to destination, planned at injection.
    pub path: Vec<Direction>,
    /// Index into `path` of the next hop to take.
    pub path_step: usize,
    /// The tile that currently holds the packet.
    pub cur_pos: Pos,
    /// The tile the packet is addressed to.
    pub dest_pos: Pos,
}

impl Default for MetaData {
    fn default() -> (r: Self)
        ensures
            r.id == 0,
            r.dir == Direction::Init,
            r.path@.len() == 0,
            r.path_step == 0,
            r.cur_pos == (0u8, 0u8),
            r.dest_pos == (0u8, 0u8),
    {
        MetaData {
            id: 0,
            dir: Direction::Init,
            path: Vec::new(),
            path_step: 0,
            cur_pos: (0, 0),
            dest_pos: (0, 0),
        }
    }
}

#[derive(Debug)]
pub struct Packet {
    pub header: MetaData,
    pub data: PacketData,
}

impl Default for Packet {
    fn default() -> (r: Self)
        ensures
            r.header.id == 0,
            r.header.dir == Direction::Init,
            r.header.path@.len() == 0,
            r.header.path_step == 0,
            r.header.cur_pos == (0u8, 0u8),
            r.header.dest_pos == (0u8, 0u8),
            r.data is Default,
    {
        Packet { header: MetaData::default(), data: PacketData::default() }
    }
}

impl Packet {
    /// Hands out the next packet identifier from `counter`: the value it
    /// held, after which it holds one more. Identifiers drawn from one
    /// counter are therefore all distinct.
    pub fn get_id(counter: &mut usize) -> (id: usize)
        requires
            *old(counter) < usize::MAX,
        ensures
            id == *old(counter),
            *final(counter) == *old(counter) + 1,
    {
        let id = *counter;
        *counter = id + 1;
        id
    }

    /// A new packet at `src_pos` addressed to `dest_pos`, with an empty path
    /// and the next identifier from `counter`.
    pub fn new(data: PacketData, src_pos: Pos, dest_pos: Pos, counter: &mut usize) -> (r: Self)
        requires
            *old(counter) < usize::MAX,
        ensures
            r.header.id == *old(counter),
            *final(counter) == *old(counter) + 1,
            r.header.dir == Direction::Init,
            r.header.path@.len() == 0,
            r.header.path_step == 0,
            r.header.cur_pos == src_pos,
            r.header.dest_pos == dest_pos,
            r.data == data,
    {
        let header = MetaData {
            id: Packet::get_id(counter),
            dir: Direction::Init,
            path: Vec::new(),
            path_step: 0,
            cur_pos: src_pos,
            dest_pos,
        };
        Packet { header, data }
    }
}

} // verus!
