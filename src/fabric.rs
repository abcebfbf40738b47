use vstd::prelude::*;

use crate::direction::{coords, fits_pos, is_cardinal, neighbor, on_grid, opposite, reverse, step, Direction, Pos};
use crate::packet::{Event, MetaData, Packet};
use crate::route::{calc_path, planned_path};

verus! {

/// An attempt to forward a packet over a link that its tile does not have,
/// named by the side of the tile that lacks it.
#[derive(Copy, Clone, Debug, PartialEq, Eq, Structural)]
pub enum SendDirError {
    Up,
    Down,
    Left,
    Right,
}

/// Why a node task could not pass a packet on.
#[derive(Debug)]
pub enum NodeCommError {
    /// The packet's next hop leads over a link that the tile lacks.
    SendDirError(SendDirError),
    /// The task at the other end of a queue is gone; the packet comes back.
    SendError(Packet),
}

/// The error for a hop in direction `d` over a missing link.
pub open spec fn blocked(d: Direction) -> SendDirError {
    match d {
        Direction::Up => SendDirError::Up,
        Direction::Down => SendDirError::Down,
        Direction::Left => SendDirError::Left,
        _ => SendDirError::Right,
    }
}

/// Which of the four links on the sides of a tile exist. The same set names
/// the tile's outbound links and its inbound links: each neighbour on the
/// grid is joined to the tile by one link each way.
#[derive(Copy, Clone, Debug, PartialEq, Eq, Structural)]
pub struct LinkSet {
    pub up: bool,
    pub down: bool,
    pub left: bool,
    pub right: bool,
}

impl LinkSet {
    /// Whether the link on side `d` exists.
    pub open spec fn has(self, d: Direction) -> bool {
        match d {
            Direction::Up => self.up,
            Direction::Down => self.down,
            Direction::Left => self.left,
            Direction::Right => self.right,
            Direction::Init => false,
        }
    }

    /// The links of tile `(x, y)` on a `width` by `height` grid: one on each
    /// side whose neighbour lies on the grid, and none across the boundary.
    pub fn of_tile(x: u8, y: u8, width: u8, height: u8) -> (r: LinkSet)
        requires
            x < width,
            y < height,
        ensures
            r == tile_links((x as int, y as int), width as int, height as int),
    {
        LinkSet {
            up: y > 0,
            down: (y as u16) + 1 < height as u16,
            left: x > 0,
            right: (x as u16) + 1 < width as u16,
        }
    }

    /// Whether the link on side `dir` exists.
    pub fn contains(&self, dir: Direction) -> (r: bool)
        ensures
            r == self.has(dir),
    {
        match dir {
            Direction::Up => self.up,
            Direction::Down => self.down,
            Direction::Left => self.left,
            Direction::Right => self.right,
            Direction::Init => false,
        }
    }
}

/// The links of tile `p` on a `width` by `height` grid.
pub open spec fn tile_links(p: (int, int), width: int, height: int) -> LinkSet {
    LinkSet {
        up: on_grid(neighbor(p, Direction::Up), width, height),
        down: on_grid(neighbor(p, Direction::Down), width, height),
        left: on_grid(neighbor(p, Direction::Left), width, height),
        right: on_grid(neighbor(p, Direction::Right), width, height),
    }
}

/// Each tile on the grid has a link on side `d` exactly when its neighbour
/// there lies on the grid, and then that neighbour has the matching link on
/// the opposite side: the two tiles are joined once each way.
pub proof fn lemma_links_pair(p: (int, int), d: Direction, width: int, height: int)
    requires
        on_grid(p, width, height),
        is_cardinal(d),
    ensures
        tile_links(p, width, height).has(d) == on_grid(neighbor(p, d), width, height),
        tile_links(p, width, height).has(d) ==> tile_links(
            neighbor(p, d),
            width,
            height,
        ).has(opposite(d)),
{
}

/// What a node task does with a packet it has taken in.
#[derive(Debug)]
pub enum Hop {
    /// The packet has made its last hop: report `event` and drop it.
    Deliver { event: Event },
    /// Report `event` and pass `packet` on over the queue or link on side
    /// `dir`.
    Forward { event: Event, packet: Packet, dir: Direction },
}

/// `p` with its current position set to `pos`.
pub open spec fn moved_to(p: Packet, pos: Pos) -> Packet {
    Packet { header: MetaData { cur_pos: pos, ..p.header }, ..p }
}

/// `p` after leaving over the link on side `d`: `d` is its latest hop and
/// its next hop is one further along the path.
pub open spec fn advanced(p: Packet, d: Direction) -> Packet {
    Packet { header: MetaData { dir: d, path_step: (p.header.path_step + 1) as usize, ..p.header }, ..p }
}

/// The tile that a packet enters when it comes in over the link on side
/// `recv_dir` of that tile, having left `from`.
pub open spec fn entered(from: Pos, recv_dir: Direction) -> Pos {
    let n = neighbor(coords(from), opposite(recv_dir));
    (n.0 as u8, n.1 as u8)
}

/// What the ingress task does with `p` arriving over its link on side
/// `recv_dir`: the packet now stands one tile further in the opposite
/// direction; with its path done it is delivered, else it waits in the inner
/// queue named after `recv_dir`, its next hop unchanged.
pub open spec fn ingress_hop(p: Packet, recv_dir: Direction) -> Hop {
    let at = entered(p.header.cur_pos, recv_dir);
    if p.header.path_step == p.header.path@.len() {
        Hop::Deliver { event: Event::PacketArrived { id: p.header.id, at, dest: p.header.dest_pos } }
    } else {
        Hop::Forward {
            event: Event::PacketReceived { id: p.header.id, recv_dir, at },
            packet: moved_to(p, at),
            dir: recv_dir,
        }
    }
}

/// What the egress task of a tile with links `links` does with `p`: with
/// its path done (a packet injected at its destination) it is delivered;
/// else it leaves over the link named by its next hop, which the tile must
/// have.
pub open spec fn egress_hop(p: Packet, links: LinkSet) -> Result<Hop, NodeCommError> {
    if p.header.path_step >= p.header.path@.len() {
        Ok(
            Hop::Deliver {
                event: Event::PacketArrived {
                    id: p.header.id,
                    at: p.header.cur_pos,
                    dest: p.header.dest_pos,
                },
            },
        )
    } else {
        let d = p.header.path@[p.header.path_step as int];
        if links.has(d) {
            Ok(
                Hop::Forward {
                    event: Event::PacketSent { id: p.header.id, send_dir: d, from: p.header.cur_pos },
                    packet: advanced(p, d),
                    dir: d,
                },
            )
        } else {
            Err(NodeCommError::SendDirError(blocked(d)))
        }
    }
}

/// The ingress decision for `packet`, which came in over the link on side
/// `recv_dir` of this tile.
pub fn route_incoming(packet: Packet, recv_dir: Direction) -> (r: Hop)
    requires
        is_cardinal(recv_dir),
        fits_pos(neighbor(coords(packet.header.cur_pos), opposite(recv_dir))),
    ensures
        r == ingress_hop(packet, recv_dir),
        coords(entered(packet.header.cur_pos, recv_dir)) == neighbor(
            coords(packet.header.cur_pos),
            opposite(recv_dir),
        ),
{
    let mut packet = packet;
    let at = step(packet.header.cur_pos, reverse(recv_dir));
    packet.header.cur_pos = at;
    if packet.header.path_step == packet.header.path.len() {
        Hop::Deliver {
            event: Event::PacketArrived {
                id: packet.header.id,
                at,
                dest: packet.header.dest_pos,
            },
        }
    } else {
        let event = Event::PacketReceived { id: packet.header.id, recv_dir, at };
        Hop::Forward { event, packet, dir: recv_dir }
    }
}

/// The egress decision for `packet` at a tile with links `links`: take the
/// next hop of its path and advance past it.
pub fn transmit_dir(packet: Packet, links: &LinkSet) -> (r: Result<Hop, NodeCommError>)
    requires
        packet.header.path_step < packet.header.path@.len() ==> is_cardinal(
            packet.header.path@[packet.header.path_step as int],
        ),
    ensures
        r == egress_hop(packet, *links),
{
    let mut packet = packet;
    if packet.header.path_step >= packet.header.path.len() {
        return Ok(
            Hop::Deliver {
                event: Event::PacketArrived {
                    id: packet.header.id,
                    at: packet.header.cur_pos,
                    dest: packet.header.dest_pos,
                },
            },
        );
    }
    let dir = packet.header.path[packet.header.path_step];
    if !links.contains(dir) {
        let e = match dir {
            Direction::Up => SendDirError::Up,
            Direction::Down => SendDirError::Down,
            Direction::Left => SendDirError::Left,
            _ => SendDirError::Right,
        };
        return Err(NodeCommError::SendDirError(e));
    }
    packet.header.dir = dir;
    packet.header.path_step = packet.header.path_step + 1;
    let event = Event::PacketSent { id: packet.header.id, send_dir: dir, from: packet.header.cur_pos };
    Ok(Hop::Forward { event, packet, dir })
}

/// Stamps `packet` for injection: its path becomes the planned path from its
/// current position to its destination, and its next hop the first one.
pub fn stamp_path(packet: &mut Packet)
    ensures
        final(packet).header.path@ == planned_path(
            coords(old(packet).header.cur_pos),
            coords(old(packet).header.dest_pos),
        ),
        final(packet).header.path_step == 0,
        final(packet).header.id == old(packet).header.id,
        final(packet).header.dir == old(packet).header.dir,
        final(packet).header.cur_pos == old(packet).header.cur_pos,
        final(packet).header.dest_pos == old(packet).header.dest_pos,
        final(packet).data == old(packet).data,
{
    packet.header.path = calc_path(packet.header.cur_pos, packet.header.dest_pos);
    packet.header.path_step = 0;
}

/// The pause in milliseconds that a node task takes before each round to
/// hold `rate` hops per second; a rate of 0 means no pacing.
pub fn pacing_delay_ms(rate: u64) -> (r: Option<u64>)
    ensures
        rate == 0 ==> r is None,
        rate > 0 ==> r == Some((1000u64 / rate) as u64),
{
    if rate == 0 {
        None
    } else {
        Some(1000 / rate)
    }
}

} // verus!
