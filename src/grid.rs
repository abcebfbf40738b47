use vstd::prelude::*;

use crate::direction::{coords, on_grid, Pos};
use crate::fabric::{stamp_path, tile_links, LinkSet};
use crate::node::MeshNode;
use crate::packet::Packet;
use crate::route::planned_path;

verus! {

/// A lookup outside the grid; the payload is the offending coordinate.
#[derive(Copy, Clone, Debug, PartialEq, Eq, Structural)]
pub enum GridAccessError {
    /// No such column: the `x` that was asked for.
    InvalidWidth(u8),
    /// No such row: the `y` that was asked for.
    InvalidHeight(u8),
}

/// Capacity of each directed link between two tiles.
pub const LINK_BUFFER_SIZE: usize = 2;

/// Capacity of each queue inside a tile.
pub const INNER_BUFFER_SIZE: usize = 4;

/// Largest capacity that a tokio bounded channel accepts.
pub const MAX_CHANNEL_CAPACITY: usize = usize::MAX >> 3;

/// The bound that the channel of a sending end was made with: how many
/// packets it buffers before a send waits.
pub uninterp spec fn sender_capacity(s: tokio::sync::mpsc::Sender<Packet>) -> usize;

/// The bound that the channel of a receiving end was made with.
pub uninterp spec fn receiver_capacity(r: tokio::sync::mpsc::Receiver<Packet>) -> usize;

/// Relies on tokio::sync::mpsc::channel: a fresh bounded channel whose bound
/// (the `max_capacity` of either end) is `buffer`. It panics on a capacity
/// of 0 or above its semaphore's maximum, `usize::MAX >> 3`.
#[verifier::external_body]
pub(crate) fn bounded_channel(buffer: usize) -> (r: (tokio::sync::mpsc::Sender<Packet>, tokio::sync::mpsc::Receiver<Packet>))
    requires
        0 < buffer <= MAX_CHANNEL_CAPACITY,
    ensures
        sender_capacity(r.0) == buffer,
        receiver_capacity(r.1) == buffer,
{
    tokio::sync::mpsc::channel(buffer)
}

/// The ends of the links on the four sides of one tile: the sending end of
/// each outbound link and the receiving end of each inbound one. A side
/// without a link has neither.
pub struct TilePorts {
    pub links: LinkSet,
    pub tx_up: Option<tokio::sync::mpsc::Sender<Packet>>,
    pub tx_down: Option<tokio::sync::mpsc::Sender<Packet>>,
    pub tx_left: Option<tokio::sync::mpsc::Sender<Packet>>,
    pub tx_right: Option<tokio::sync::mpsc::Sender<Packet>>,
    pub rx_up: Option<tokio::sync::mpsc::Receiver<Packet>>,
    pub rx_down: Option<tokio::sync::mpsc::Receiver<Packet>>,
    pub rx_left: Option<tokio::sync::mpsc::Receiver<Packet>>,
    pub rx_right: Option<tokio::sync::mpsc::Receiver<Packet>>,
}

impl TilePorts {
    /// Whether this tile holds both ends that belong to it on exactly the
    /// sides of `l`.
    pub open spec fn wired(self, l: LinkSet) -> bool {
        &&& self.tx_up is Some <==> l.up
        &&& self.rx_up is Some <==> l.up
        &&& self.tx_down is Some <==> l.down
        &&& self.rx_down is Some <==> l.down
        &&& self.tx_left is Some <==> l.left
        &&& self.rx_left is Some <==> l.left
        &&& self.tx_right is Some <==> l.right
        &&& self.rx_right is Some <==> l.right
    }

    /// Whether every link end this tile holds belongs to a channel of
    /// `capacity` slots.
    pub open spec fn buffered(self, capacity: usize) -> bool {
        &&& self.tx_up matches Some(t) ==> sender_capacity(t) == capacity
        &&& self.tx_down matches Some(t) ==> sender_capacity(t) == capacity
        &&& self.tx_left matches Some(t) ==> sender_capacity(t) == capacity
        &&& self.tx_right matches Some(t) ==> sender_capacity(t) == capacity
        &&& self.rx_up matches Some(t) ==> receiver_capacity(t) == capacity
        &&& self.rx_down matches Some(t) ==> receiver_capacity(t) == capacity
        &&& self.rx_left matches Some(t) ==> receiver_capacity(t) == capacity
        &&& self.rx_right matches Some(t) ==> receiver_capacity(t) == capacity
    }

    fn unwired(links: LinkSet) -> (r: TilePorts)
        ensures
            r.links == links,
            r.wired(LinkSet { up: false, down: false, left: false, right: false }),
    {
        TilePorts {
            links,
            tx_up: None,
            tx_down: None,
            tx_left: None,
            tx_right: None,
            rx_up: None,
            rx_down: None,
            rx_left: None,
            rx_right: None,
        }
    }
}

/// `l` with its lower side set to `down` and its right side set to `right`.
pub open spec fn partial(l: LinkSet, down: bool, right: bool) -> LinkSet {
    LinkSet { down, right, ..l }
}

/// The error for a grid of `width` by `height` tiles when one of them is 0.
pub open spec fn dimension_error(width: u8, height: u8) -> GridAccessError {
    if width == 0 {
        GridAccessError::InvalidWidth(0)
    } else {
        GridAccessError::InvalidHeight(0)
    }
}

/// Checks the dimensions of a grid: each must be at least 1.
pub fn check_dimensions(width: u8, height: u8) -> (r: Result<(), GridAccessError>)
    ensures
        r is Err <==> (width == 0 || height == 0),
        r matches Err(e) ==> e == dimension_error(width, height),
{
    if width == 0 {
        Err(GridAccessError::InvalidWidth(0))
    } else if height == 0 {
        Err(GridAccessError::InvalidHeight(0))
    } else {
        Ok(())
    }
}

/// Allocates the links of a `width` by `height` grid, each a bounded channel
/// of `link_buffer_size` slots, and hands back the ends that each tile holds,
/// row by row. Each pair of neighbouring tiles gets one link each way, and
/// no link crosses the boundary: the sides a tile has ends on are exactly
/// those of `tile_links`. A width or height of 0 is refused.
pub fn wire_links(width: u8, height: u8, link_buffer_size: usize) -> (r: Result<
    Vec<Vec<TilePorts>>,
    GridAccessError,
>)
    requires
        0 < link_buffer_size <= MAX_CHANNEL_CAPACITY,
    ensures
        r is Err <==> (width == 0 || height == 0),
        r matches Err(e) ==> e == dimension_error(width, height),
        r matches Ok(ports) ==> {
            &&& ports@.len() == height
            &&& forall|y: int| 0 <= y < height ==> (#[trigger] ports@[y])@.len() == width
            &&& forall|y: int, x: int|
                0 <= y < height && 0 <= x < width ==> {
                    &&& (#[trigger] ports@[y]@[x]).links == tile_links(
                        (x, y),
                        width as int,
                        height as int,
                    )
                    &&& ports@[y]@[x].wired(ports@[y]@[x].links)
                    &&& ports@[y]@[x].buffered(link_buffer_size)
                }
        },
{
    match check_dimensions(width, height) {
        Ok(()) => {},
        Err(e) => return Err(e),
    }
    let ghost w = width as int;
    let ghost h = height as int;
    let mut rows: Vec<Vec<TilePorts>> = Vec::new();
    let mut prev: Vec<TilePorts> = Vec::new();
    let mut y: u8 = 0;
    while y < height
        invariant
            0 < link_buffer_size <= MAX_CHANNEL_CAPACITY,
            w == width,
            h == height,
            y <= height,
            rows@.len() == if y > 0 { y - 1 } else { 0 },
            prev@.len() == if y > 0 { width as int } else { 0 },
            forall|j: int| 0 <= j < rows@.len() ==> (#[trigger] rows@[j])@.len() == width,
            forall|j: int, i: int|
                0 <= j < rows@.len() && 0 <= i < width ==> {
                    &&& (#[trigger] rows@[j]@[i]).links == tile_links((i, j), w, h)
                    &&& rows@[j]@[i].wired(rows@[j]@[i].links)
                    &&& rows@[j]@[i].buffered(link_buffer_size)
                },
            forall|i: int|
                0 <= i < prev@.len() ==> {
                    &&& (#[trigger] prev@[i]).links == tile_links((i, y - 1), w, h)
                    &&& prev@[i].wired(partial(prev@[i].links, false, prev@[i].links.right))
                    &&& prev@[i].buffered(link_buffer_size)
                },
        decreases height - y,
    {
        let mut row: Vec<TilePorts> = Vec::new();
        let mut x: u8 = 0;
        while x < width
            invariant
                0 < link_buffer_size <= MAX_CHANNEL_CAPACITY,
                w == width,
                h == height,
                y < height,
                x <= width,
                row@.len() == x,
                prev@.len() == if y > 0 { width as int } else { 0 },
                forall|i: int|
                    0 <= i < prev@.len() ==> {
                        &&& (#[trigger] prev@[i]).links == tile_links((i, y - 1), w, h)
                        &&& prev@[i].wired(partial(prev@[i].links, i < x, prev@[i].links.right))
                        &&& prev@[i].buffered(link_buffer_size)
                    },
                forall|i: int|
                    0 <= i < x ==> {
                        &&& (#[trigger] row@[i]).links == tile_links((i, y as int), w, h)
                        &&& row@[i].wired(partial(row@[i].links, false, i + 1 < x))
                        &&& row@[i].buffered(link_buffer_size)
                    },
            decreases width - x,
        {
            let mut cur = TilePorts::unwired(LinkSet::of_tile(x, y, width, height));
            if y > 0 {
                let (tx, rx) = bounded_channel(link_buffer_size);
                cur.tx_up = Some(tx);
                prev[x as usize].rx_down = Some(rx);
                let (tx, rx) = bounded_channel(link_buffer_size);
                prev[x as usize].tx_down = Some(tx);
                cur.rx_up = Some(rx);
            }
            if x > 0 {
                let (tx, rx) = bounded_channel(link_buffer_size);
                cur.tx_left = Some(tx);
                row[x as usize - 1].rx_right = Some(rx);
                let (tx, rx) = bounded_channel(link_buffer_size);
                row[x as usize - 1].tx_right = Some(tx);
                cur.rx_left = Some(rx);
            }
            row.push(cur);
            x = x + 1;
        }
        if y > 0 {
            rows.push(prev);
        }
        prev = row;
        y = y + 1;
    }
    rows.push(prev);
    Ok(rows)
}

/// The tiles of the mesh, row by row.
pub struct Grid {
    nodes: Vec<Vec<MeshNode>>,
}

impl Default for Grid {
    fn default() -> (r: Self)
        ensures
            r.rows().len() == 0,
    {
        Grid { nodes: Vec::new() }
    }
}

impl Grid {
    /// The tiles, row by row: `rows()[y][x]` is the tile at `(x, y)`.
    pub closed spec fn rows(self) -> Seq<Seq<MeshNode>> {
        self.nodes@.map_values(|r: Vec<MeshNode>| r@)
    }

    /// Every row holds `width` tiles and each tile carries its own
    /// coordinates.
    pub open spec fn shaped(self, width: int, height: int) -> bool {
        &&& self.rows().len() == height
        &&& forall|y: int| 0 <= y < height ==> (#[trigger] self.rows()[y]).len() == width
        &&& forall|y: int, x: int|
            0 <= y < height && 0 <= x < width ==> {
                &&& (#[trigger] self.rows()[y][x]).x == x
                &&& self.rows()[y][x].y == y
            }
    }

    /// A `width` by `height` grid whose tiles pace at `tx_rate` and
    /// `rx_rate`, each with a fresh local injection queue of
    /// `inner_buffer_size` slots. The receiving ends of those queues come
    /// back in row-major order. A width or height of 0 is refused.
    pub fn init_nodes(
        width: u8,
        height: u8,
        tx_rate: u64,
        rx_rate: u64,
        inner_buffer_size: usize,
    ) -> (r: Result<(Grid, Vec<tokio::sync::mpsc::Receiver<Packet>>), GridAccessError>)
        requires
            0 < inner_buffer_size <= MAX_CHANNEL_CAPACITY,
        ensures
            r is Err <==> (width == 0 || height == 0),
            r matches Err(e) ==> e == dimension_error(width, height),
            r matches Ok(built) ==> {
                &&& built.0.shaped(width as int, height as int)
                &&& forall|y: int, x: int|
                    0 <= y < height && 0 <= x < width ==> {
                        &&& (#[trigger] built.0.rows()[y][x]).tx_rate == tx_rate
                        &&& built.0.rows()[y][x].rx_rate == rx_rate
                        &&& sender_capacity(built.0.rows()[y][x].tx_local) == inner_buffer_size
                    }
                &&& built.1@.len() == width as int * height as int
                &&& forall|i: int|
                    0 <= i < built.1@.len() ==> receiver_capacity(#[trigger] built.1@[i])
                        == inner_buffer_size
            },
    {
        match check_dimensions(width, height) {
            Ok(()) => {},
            Err(e) => return Err(e),
        }
        let mut nodes: Vec<Vec<MeshNode>> = Vec::new();
        let mut local_rx: Vec<tokio::sync::mpsc::Receiver<Packet>> = Vec::new();
        let mut y: u8 = 0;
        while y < height
            invariant
                0 < inner_buffer_size <= MAX_CHANNEL_CAPACITY,
                y <= height,
                nodes@.len() == y,
                local_rx@.len() == y as int * width as int,
                forall|j: int| 0 <= j < y ==> (#[trigger] nodes@[j])@.len() == width,
                forall|j: int, i: int|
                    0 <= j < y && 0 <= i < width ==> {
                        &&& (#[trigger] nodes@[j]@[i]).x == i
                        &&& nodes@[j]@[i].y == j
                        &&& nodes@[j]@[i].tx_rate == tx_rate
                        &&& nodes@[j]@[i].rx_rate == rx_rate
                        &&& sender_capacity(nodes@[j]@[i].tx_local) == inner_buffer_size
                    },
                forall|k: int|
                    0 <= k < local_rx@.len() ==> receiver_capacity(#[trigger] local_rx@[k])
                        == inner_buffer_size,
            decreases height - y,
        {
            let mut row: Vec<MeshNode> = Vec::new();
            let mut x: u8 = 0;
            while x < width
                invariant
                    0 < inner_buffer_size <= MAX_CHANNEL_CAPACITY,
                    x <= width,
                    y < height,
                    row@.len() == x,
                    local_rx@.len() == y as int * width as int + x,
                    forall|i: int|
                        0 <= i < x ==> {
                            &&& (#[trigger] row@[i]).x == i
                            &&& row@[i].y == y
                            &&& row@[i].tx_rate == tx_rate
                            &&& row@[i].rx_rate == rx_rate
                            &&& sender_capacity(row@[i].tx_local) == inner_buffer_size
                        },
                    forall|k: int|
                        0 <= k < local_rx@.len() ==> receiver_capacity(#[trigger] local_rx@[k])
                            == inner_buffer_size,
                decreases width - x,
            {
                let (tx_local, rx_local) = bounded_channel(inner_buffer_size);
                row.push(MeshNode::init_channeless(x, y, tx_rate, rx_rate, tx_local));
                local_rx.push(rx_local);
                x = x + 1;
            }
            nodes.push(row);
            proof {
                assert((y as int + 1) * width as int == y as int * width as int + width as int)
                    by (nonlinear_arith);
            }
            y = y + 1;
        }
        let grid = Grid { nodes };
        assert(grid.rows().len() == height);
        assert(height as int * width as int == width as int * height as int) by (nonlinear_arith);
        Ok((grid, local_rx))
    }

    /// Whether the grid has a tile at `pos`.
    pub open spec fn holds(self, pos: Pos) -> bool {
        pos.1 < self.rows().len() && pos.0 < self.rows()[pos.1 as int].len()
    }

    /// On a grid shaped `width` by `height`, the tiles it holds are those
    /// of the positions on a `width` by `height` grid.
    pub proof fn lemma_holds_on_grid(self, pos: Pos, width: int, height: int)
        requires
            self.shaped(width, height),
        ensures
            self.holds(pos) == on_grid(coords(pos), width, height),
    {
    }

    /// The error that `access_node` reports for `pos`, a position off the
    /// grid.
    pub open spec fn access_error(self, pos: Pos) -> GridAccessError {
        if pos.1 >= self.rows().len() {
            GridAccessError::InvalidHeight(pos.1)
        } else {
            GridAccessError::InvalidWidth(pos.0)
        }
    }

    /// Readies `packet` for injection: finds the tile it stands on, checks
    /// that its destination is on the grid too, and stamps it with the
    /// planned path between them. A position off the grid is reported, the
    /// source before the destination, and leaves the packet as it was.
    pub fn prepare_injection(&self, packet: &mut Packet) -> (r: Result<&MeshNode, GridAccessError>)
        ensures
            r is Ok <==> (self.holds(old(packet).header.cur_pos) && self.holds(
                old(packet).header.dest_pos,
            )),
            r matches Ok(n) ==> {
                &&& *n == self.rows()[old(packet).header.cur_pos.1 as int][old(
                    packet,
                ).header.cur_pos.0 as int]
                &&& final(packet).header.path@ == planned_path(
                    coords(old(packet).header.cur_pos),
                    coords(old(packet).header.dest_pos),
                )
                &&& final(packet).header.path_step == 0
                &&& final(packet).header.id == old(packet).header.id
                &&& final(packet).header.dir == old(packet).header.dir
                &&& final(packet).header.cur_pos == old(packet).header.cur_pos
                &&& final(packet).header.dest_pos == old(packet).header.dest_pos
                &&& final(packet).data == old(packet).data
            },
            r matches Err(e) ==> {
                &&& *final(packet) == *old(packet)
                &&& e == if !self.holds(old(packet).header.cur_pos) {
                    self.access_error(old(packet).header.cur_pos)
                } else {
                    self.access_error(old(packet).header.dest_pos)
                }
            },
    {
        let node = match self.access_node(packet.header.cur_pos) {
            Ok(node) => node,
            Err(e) => return Err(e),
        };
        match self.access_node(packet.header.dest_pos) {
            Ok(_) => {},
            Err(e) => return Err(e),
        }
        stamp_path(packet);
        Ok(node)
    }

    /// The tile at `(x, y)`; a row past the last is reported before a column
    /// past the last.
    pub fn access_node(&self, pos: (u8, u8)) -> (r: Result<&MeshNode, GridAccessError>)
        ensures
            r is Ok <==> self.holds(pos),
            r matches Ok(n) ==> *n == self.rows()[pos.1 as int][pos.0 as int],
            r matches Err(e) ==> e == self.access_error(pos),
    {
        let (x, y) = pos;
        if y as usize >= self.nodes.len() {
            return Err(GridAccessError::InvalidHeight(y));
        }
        let node_row = &self.nodes[y as usize];
        if x as usize >= node_row.len() {
            return Err(GridAccessError::InvalidWidth(x));
        }
        Ok(&node_row[x as usize])
    }
}

} // verus!
