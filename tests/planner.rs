use mesh_noc::direction::Direction;
use mesh_noc::direction::Direction::{Down, Left, Right, Up};
use mesh_noc::node::MeshNode;
use mesh_noc::route::{calc_path, is_prohibited, turn_restrict};

fn walk(src: (u8, u8), path: &[Direction]) -> Vec<(u8, u8)> {
    let mut pos = src;
    let mut seen = vec![pos];
    for d in path {
        pos = match d {
            Up => (pos.0, pos.1 - 1),
            Down => (pos.0, pos.1 + 1),
            Left => (pos.0 - 1, pos.1),
            Right => (pos.0 + 1, pos.1),
            Direction::Init => panic!("Init on a path"),
        };
        seen.push(pos);
    }
    seen
}

#[test]
fn path_left_then_up() {
    assert_eq!(calc_path((4, 3), (1, 0)), vec![Left, Left, Left, Up, Up, Up]);
}

#[test]
fn path_down_then_right() {
    assert_eq!(
        calc_path((0, 0), (4, 4)),
        vec![Down, Down, Down, Down, Right, Right, Right, Right]
    );
}

#[test]
fn path_right_then_up() {
    let path = calc_path((1, 3), (4, 0));
    assert_eq!(path, vec![Right, Right, Right, Up, Up, Up]);
    assert_eq!(*walk((1, 3), &path).last().unwrap(), (4, 0));
}

#[test]
fn path_primary_first() {
    assert_eq!(calc_path((0, 0), (1, 1)), vec![Down, Right]);
}

#[test]
fn path_left_then_down() {
    assert_eq!(calc_path((3, 0), (1, 2)), vec![Left, Left, Down, Down]);
}

#[test]
fn path_straight_lines() {
    assert_eq!(calc_path((2, 2), (2, 0)), vec![Up, Up]);
    assert_eq!(calc_path((2, 0), (2, 3)), vec![Down, Down, Down]);
    assert_eq!(calc_path((3, 1), (0, 1)), vec![Left, Left, Left]);
    assert_eq!(calc_path((0, 1), (2, 1)), vec![Right, Right]);
}

#[test]
fn zero_hop_path_is_empty() {
    assert!(calc_path((3, 3), (3, 3)).is_empty());
    assert!(calc_path((0, 0), (0, 0)).is_empty());
}

#[test]
fn largest_coordinates() {
    let path = calc_path((0, 0), (254, 254));
    assert_eq!(path.len(), 508);
    assert_eq!(*walk((0, 0), &path).last().unwrap(), (254, 254));
    let back = calc_path((254, 254), (0, 0));
    assert_eq!(back.len(), 508);
    assert_eq!(*walk((254, 254), &back).last().unwrap(), (0, 0));
}

#[test]
fn paths_minimal_turn_free_and_on_grid() {
    let (w, h) = (5u8, 4u8);
    for sx in 0..w {
        for sy in 0..h {
            for dx in 0..w {
                for dy in 0..h {
                    let path = calc_path((sx, sy), (dx, dy));
                    let manhattan = (sx as i32 - dx as i32).abs() + (sy as i32 - dy as i32).abs();
                    assert_eq!(path.len() as i32, manhattan);
                    for pair in path.windows(2) {
                        assert!(!matches!((pair[0], pair[1]), (Up, Left) | (Right, Down)));
                    }
                    let tiles = walk((sx, sy), &path);
                    assert!(tiles.iter().all(|&(x, y)| x < w && y < h));
                    assert_eq!(*tiles.last().unwrap(), (dx, dy));
                }
            }
        }
    }
}

#[test]
fn greedy_move_table() {
    assert_eq!(MeshNode::greedy_move((0, 0), (2, 2)), [Down, Right]);
    assert_eq!(MeshNode::greedy_move((0, 2), (2, 0)), [Right, Up]);
    assert_eq!(MeshNode::greedy_move((2, 0), (0, 2)), [Left, Down]);
    assert_eq!(MeshNode::greedy_move((2, 2), (0, 0)), [Left, Up]);
    assert_eq!(MeshNode::greedy_move((1, 2), (1, 0)), [Up, Down]);
    assert_eq!(MeshNode::greedy_move((1, 0), (1, 2)), [Down, Up]);
    assert_eq!(MeshNode::greedy_move((2, 1), (0, 1)), [Left, Right]);
    assert_eq!(MeshNode::greedy_move((0, 1), (2, 1)), [Right, Left]);
}

#[test]
fn prohibited_turns() {
    assert!(is_prohibited(&Up, &Left));
    assert!(is_prohibited(&Right, &Down));
    assert!(!is_prohibited(&Left, &Up));
    assert!(!is_prohibited(&Down, &Right));
    assert!(!is_prohibited(&Direction::Init, &Left));
    assert!(!is_prohibited(&Direction::Init, &Down));
}

#[test]
fn turn_restrict_takes_fallback_after_prohibited_turn() {
    let mut path = vec![Up];
    let mut pos = (3, 3);
    turn_restrict(&mut path, &[Left, Up], &Up, &mut pos);
    assert_eq!(path, vec![Up, Up]);
    assert_eq!(pos, (3, 2));

    let mut path = vec![Right];
    let mut pos = (1, 1);
    turn_restrict(&mut path, &[Down, Right], &Right, &mut pos);
    assert_eq!(path, vec![Right, Right]);
    assert_eq!(pos, (2, 1));
}

#[test]
fn turn_restrict_takes_primary_otherwise() {
    let mut path = Vec::new();
    let mut pos = (3, 3);
    turn_restrict(&mut path, &[Left, Up], &Direction::Init, &mut pos);
    assert_eq!(path, vec![Left]);
    assert_eq!(pos, (2, 3));

    let mut path = vec![Down];
    let mut pos = (0, 0);
    turn_restrict(&mut path, &[Down, Right], &Down, &mut pos);
    assert_eq!(path, vec![Down, Down]);
    assert_eq!(pos, (0, 1));
}

#[test]
fn calc_route_from_node() {
    let (tx, _rx) = tokio::sync::mpsc::channel(1);
    let node = MeshNode::init_channeless(1, 1, 10, 10, tx);
    assert_eq!(node.calc_route((3, 3), &Direction::Init), Down);
    assert_eq!(node.calc_route((3, 3), &Right), Right);
    assert_eq!(node.calc_route((0, 0), &Up), Up);
    assert_eq!(node.calc_route((0, 0), &Left), Left);
    assert_eq!(node.x, 1);
    assert_eq!(node.y, 1);
    assert_eq!(node.tx_rate, 10);
    assert_eq!(node.rx_rate, 10);
}
