use mesh_noc::direction::Direction::{Left, Up};
use mesh_noc::grid::{check_dimensions, wire_links, Grid, GridAccessError, INNER_BUFFER_SIZE, LINK_BUFFER_SIZE};
use mesh_noc::packet::{Packet, PacketData};

#[test]
fn nodes_carry_their_coordinates() {
    let (grid, local_rx) = Grid::init_nodes(4, 3, 10, 20, INNER_BUFFER_SIZE).unwrap();
    assert_eq!(local_rx.len(), 12);
    for y in 0..3u8 {
        for x in 0..4u8 {
            let node = grid.access_node((x, y)).ok().unwrap();
            assert_eq!((node.x, node.y), (x, y));
            assert_eq!((node.tx_rate, node.rx_rate), (10, 20));
        }
    }
}

#[test]
fn access_out_of_bounds() {
    let (grid, _rx) = Grid::init_nodes(4, 3, 10, 10, INNER_BUFFER_SIZE).unwrap();
    assert_eq!(grid.access_node((1, 3)).err(), Some(GridAccessError::InvalidHeight(3)));
    assert_eq!(grid.access_node((4, 1)).err(), Some(GridAccessError::InvalidWidth(4)));
    assert_eq!(grid.access_node((9, 9)).err(), Some(GridAccessError::InvalidHeight(9)));
    let empty = Grid::default();
    assert_eq!(empty.access_node((0, 0)).err(), Some(GridAccessError::InvalidHeight(0)));
}

#[test]
fn local_queue_reaches_its_tile() {
    let (grid, mut local_rx) = Grid::init_nodes(2, 2, 0, 0, INNER_BUFFER_SIZE).unwrap();
    let mut counter = 0usize;
    let node = grid.access_node((1, 1)).ok().unwrap();
    node.tx_local
        .try_send(Packet::new(PacketData::Default, (1, 1), (0, 0), &mut counter))
        .ok()
        .unwrap();
    let got = local_rx[3].try_recv().ok().unwrap();
    assert_eq!(got.header.cur_pos, (1, 1));
    assert!(local_rx[0].try_recv().is_err());
}

#[test]
fn links_only_inside_the_grid() {
    let ports = wire_links(3, 2, LINK_BUFFER_SIZE).unwrap();
    assert_eq!(ports.len(), 2);
    let mut outbound = 0;
    let mut inbound = 0;
    for (y, row) in ports.iter().enumerate() {
        assert_eq!(row.len(), 3);
        for (x, p) in row.iter().enumerate() {
            assert_eq!(p.tx_up.is_some(), y > 0);
            assert_eq!(p.tx_down.is_some(), y + 1 < 2);
            assert_eq!(p.tx_left.is_some(), x > 0);
            assert_eq!(p.tx_right.is_some(), x + 1 < 3);
            outbound += [&p.tx_up, &p.tx_down, &p.tx_left, &p.tx_right].iter().filter(|t| t.is_some()).count();
            inbound += [&p.rx_up, &p.rx_down, &p.rx_left, &p.rx_right].iter().filter(|r| r.is_some()).count();
        }
    }
    // A 3 by 2 grid has 7 neighbouring pairs, each joined once each way.
    assert_eq!(outbound, 14);
    assert_eq!(inbound, 14);
}

#[test]
fn links_join_neighbours() {
    let mut ports = wire_links(2, 2, LINK_BUFFER_SIZE).unwrap();
    let mut counter = 0usize;
    let mk = |c: &mut usize| Packet::new(PacketData::Default, (0, 0), (1, 1), c);
    ports[0][0].tx_right.as_ref().unwrap().try_send(mk(&mut counter)).ok().unwrap();
    assert_eq!(ports[0][1].rx_left.as_mut().unwrap().try_recv().ok().unwrap().header.id, 0);
    ports[0][0].tx_down.as_ref().unwrap().try_send(mk(&mut counter)).ok().unwrap();
    assert_eq!(ports[1][0].rx_up.as_mut().unwrap().try_recv().ok().unwrap().header.id, 1);
    ports[1][1].tx_up.as_ref().unwrap().try_send(mk(&mut counter)).ok().unwrap();
    assert_eq!(ports[0][1].rx_down.as_mut().unwrap().try_recv().ok().unwrap().header.id, 2);
    ports[1][1].tx_left.as_ref().unwrap().try_send(mk(&mut counter)).ok().unwrap();
    assert_eq!(ports[1][0].rx_right.as_mut().unwrap().try_recv().ok().unwrap().header.id, 3);
}

#[test]
fn links_hold_link_buffer_size() {
    let ports = wire_links(2, 1, LINK_BUFFER_SIZE).unwrap();
    let mut counter = 0usize;
    let tx = ports[0][0].tx_right.as_ref().unwrap();
    for _ in 0..LINK_BUFFER_SIZE {
        tx.try_send(Packet::new(PacketData::Default, (0, 0), (1, 0), &mut counter)).ok().unwrap();
    }
    assert!(tx.try_send(Packet::new(PacketData::Default, (0, 0), (1, 0), &mut counter)).is_err());
}

#[test]
fn prepare_injection_stamps_path() {
    let (grid, mut local_rx) = Grid::init_nodes(5, 5, 0, 0, INNER_BUFFER_SIZE).unwrap();
    let mut counter = 0usize;
    let mut p = Packet::new(PacketData::Integer(3), (4, 3), (1, 0), &mut counter);
    let node = grid.prepare_injection(&mut p).ok().unwrap();
    assert_eq!((node.x, node.y), (4, 3));
    assert_eq!(p.header.path, vec![Left, Left, Left, Up, Up, Up]);
    assert_eq!(p.header.path_step, 0);
    node.tx_local.try_send(p).ok().unwrap();
    assert_eq!(local_rx[3 * 5 + 4].try_recv().ok().unwrap().header.dest_pos, (1, 0));
}

#[test]
fn prepare_injection_rejects_off_grid() {
    let (grid, _rx) = Grid::init_nodes(5, 4, 0, 0, INNER_BUFFER_SIZE).unwrap();
    let mut counter = 0usize;
    let mut p = Packet::new(PacketData::Default, (5, 0), (1, 1), &mut counter);
    assert_eq!(grid.prepare_injection(&mut p).err(), Some(GridAccessError::InvalidWidth(5)));
    assert!(p.header.path.is_empty());
    let mut p = Packet::new(PacketData::Default, (1, 1), (2, 4), &mut counter);
    assert_eq!(grid.prepare_injection(&mut p).err(), Some(GridAccessError::InvalidHeight(4)));
    let mut p = Packet::new(PacketData::Default, (0, 9), (7, 7), &mut counter);
    assert_eq!(grid.prepare_injection(&mut p).err(), Some(GridAccessError::InvalidHeight(9)));
}

#[test]
fn one_by_one_grid_takes_only_zero_hop_packets() {
    let (grid, _rx) = Grid::init_nodes(1, 1, 0, 0, INNER_BUFFER_SIZE).unwrap();
    let mut counter = 0usize;
    let mut p = Packet::new(PacketData::Default, (0, 0), (0, 0), &mut counter);
    assert!(grid.prepare_injection(&mut p).is_ok());
    assert!(p.header.path.is_empty());
    let mut q = Packet::new(PacketData::Default, (0, 0), (1, 0), &mut counter);
    assert_eq!(grid.prepare_injection(&mut q).err(), Some(GridAccessError::InvalidWidth(1)));
    let ports = wire_links(1, 1, LINK_BUFFER_SIZE).unwrap();
    let p = &ports[0][0];
    assert!(p.tx_up.is_none() && p.tx_down.is_none() && p.tx_left.is_none() && p.tx_right.is_none());
}

#[test]
fn link_keeps_send_order() {
    let mut ports = wire_links(2, 1, LINK_BUFFER_SIZE).unwrap();
    let mut counter = 0usize;
    let tx = ports[0][1].tx_left.take().unwrap();
    for _ in 0..2 {
        tx.try_send(Packet::new(PacketData::Default, (1, 0), (0, 0), &mut counter)).ok().unwrap();
    }
    let rx = ports[0][0].rx_right.as_mut().unwrap();
    assert_eq!(rx.try_recv().ok().unwrap().header.id, 0);
    assert_eq!(rx.try_recv().ok().unwrap().header.id, 1);
}

#[test]
fn zero_dimensions_are_refused() {
    assert_eq!(Grid::init_nodes(0, 5, 0, 0, INNER_BUFFER_SIZE).err(), Some(GridAccessError::InvalidWidth(0)));
    assert_eq!(Grid::init_nodes(5, 0, 0, 0, INNER_BUFFER_SIZE).err(), Some(GridAccessError::InvalidHeight(0)));
    assert_eq!(Grid::init_nodes(0, 0, 0, 0, INNER_BUFFER_SIZE).err(), Some(GridAccessError::InvalidWidth(0)));
    assert_eq!(wire_links(0, 3, LINK_BUFFER_SIZE).err(), Some(GridAccessError::InvalidWidth(0)));
    assert_eq!(wire_links(3, 0, LINK_BUFFER_SIZE).err(), Some(GridAccessError::InvalidHeight(0)));
    assert!(check_dimensions(255, 255).is_ok());
    assert_eq!(check_dimensions(1, 0), Err(GridAccessError::InvalidHeight(0)));
}

#[test]
fn channels_have_their_capacities() {
    let (grid, local_rx) = Grid::init_nodes(2, 2, 0, 0, INNER_BUFFER_SIZE).unwrap();
    assert_eq!(grid.access_node((1, 0)).ok().unwrap().tx_local.max_capacity(), INNER_BUFFER_SIZE);
    assert!(local_rx.iter().all(|rx| rx.max_capacity() == INNER_BUFFER_SIZE));
    let ports = wire_links(2, 2, LINK_BUFFER_SIZE).unwrap();
    let p = &ports[0][0];
    assert_eq!(p.tx_right.as_ref().unwrap().max_capacity(), LINK_BUFFER_SIZE);
    assert_eq!(p.tx_down.as_ref().unwrap().max_capacity(), LINK_BUFFER_SIZE);
    assert_eq!(p.rx_right.as_ref().unwrap().max_capacity(), LINK_BUFFER_SIZE);
    assert_eq!(p.rx_down.as_ref().unwrap().max_capacity(), LINK_BUFFER_SIZE);
}
