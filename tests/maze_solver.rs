use nevergrind_bot::char_state::CharState;
use nevergrind_bot::maze_solver::Direction::{Down, Left, Right, Up};
use nevergrind_bot::maze_solver::{Direction, Node, Pos, Solver};
use nevergrind_bot::node_map::NodeMap;
use nevergrind_bot::simulation_state::DebugObj;
use nevergrind_bot::skill::Key;

fn test_maze() -> NodeMap {
    // A(0,0) - B(1,0) - C(2,0)
    //          |        |
    //          D(1,1) - E(2,1)
    //          |        |
    // F(0,2) - G(1,2) - H(2,2)
    let mut map = NodeMap::new();
    map.insert((0, 0), Node::new(true, vec![(Right, (1, 0))]));
    map.insert((1, 0), Node::new(false, vec![(Left, (0, 0)), (Right, (2, 0)), (Down, (1, 1))]));
    map.insert((2, 0), Node::new(false, vec![(Left, (1, 0)), (Down, (2, 1))]));
    map.insert((1, 1), Node::new(false, vec![(Up, (1, 0)), (Down, (1, 2)), (Right, (2, 1))]));
    map.insert((2, 1), Node::new(false, vec![(Up, (2, 0)), (Down, (2, 2)), (Left, (1, 1))]));
    map.insert((0, 2), Node::new(false, vec![(Right, (1, 2))]));
    map.insert((1, 2), Node::new(false, vec![(Up, (1, 1)), (Left, (0, 2)), (Right, (2, 2))]));
    map.insert((2, 2), Node::new(false, vec![(Up, (2, 1)), (Left, (1, 2))]));
    map
}

const ALL: [Direction; 4] = [Up, Down, Left, Right];

#[test]
fn test_solver() {
    let mut debug = DebugObj::new(CharState::InDungeon, test_maze(), 0, 0);
    let mut solver = Solver::new();

    let mut steps = 0;
    while !solver.explore_step(&mut debug, 0) {
        steps += 1;
        assert!(steps < 1000, "exploration does not end");
    }

    let result_map = solver.map();
    assert_eq!(result_map.len(), 8);
    assert!(result_map.all_visited())
}

#[test]
fn solver_records_only_real_edges_both_ways() {
    let maze = test_maze();
    let mut debug = DebugObj::new(CharState::InDungeon, test_maze(), 0, 0);
    let mut solver = Solver::new();
    while !solver.explore_step(&mut debug, 0) {}
    assert!(solver.explore_step(&mut debug, 0));

    let found = solver.map();
    let positions: Vec<Pos> = vec![(0, 0), (1, 0), (2, 0), (1, 1), (2, 1), (0, 2), (1, 2), (2, 2)];
    for p in positions {
        let expected = maze.get(p).unwrap();
        let node = found.get(p).unwrap();
        assert!(node.visited);
        for d in ALL {
            if let Some(q) = node.get_neighbor(d) {
                assert_eq!(expected.get_neighbor(d), Some(q), "{:?} {:?}", p, d);
                let back = found.get(q).unwrap();
                assert_eq!(back.get_neighbor(d.opposite()), Some(p));
            }
        }
    }
    assert_eq!(solver.current_pos(), (0, 0));
    // an edge into a position that was already visited is never tried
    assert_eq!(found.get((1, 0)).unwrap().get_neighbor(Down), None);
}

#[test]
fn solver_on_a_tree_maze_finds_every_edge() {
    // (0,0) - (1,0) - (2,0)
    //           |
    //         (1,1)
    let mut maze = NodeMap::new();
    maze.insert((0, 0), Node::new(false, vec![(Right, (1, 0))]));
    maze.insert((1, 0), Node::new(false, vec![(Left, (0, 0)), (Right, (2, 0)), (Down, (1, 1))]));
    maze.insert((2, 0), Node::new(false, vec![(Left, (1, 0))]));
    maze.insert((1, 1), Node::new(false, vec![(Up, (1, 0))]));
    let positions: Vec<Pos> = vec![(0, 0), (1, 0), (2, 0), (1, 1)];
    let mut copy = NodeMap::new();
    for p in &positions {
        copy.insert(*p, maze.get(*p).unwrap());
    }
    let mut debug = DebugObj::new(CharState::InDungeon, copy, 0, 0);
    let mut solver = Solver::new();
    while !solver.explore_step(&mut debug, 0) {}
    let found = solver.map();
    assert_eq!(found.len(), 4);
    assert!(found.all_visited());
    for p in positions {
        for d in ALL {
            assert_eq!(found.get(p).unwrap().get_neighbor(d), maze.get(p).unwrap().get_neighbor(d));
        }
    }
}

#[test]
fn dead_end_start_finishes_after_one_backtrack() {
    let mut map = NodeMap::new();
    map.insert((0, 0), Node::new(false, vec![]));
    let mut debug = DebugObj::new(CharState::InDungeon, map, 0, 0);
    let mut solver = Solver::new();
    assert!(!solver.explore_step(&mut debug, 0));
    assert!(solver.explore_step(&mut debug, 0));
    assert_eq!(solver.map().len(), 1);
    assert!(solver.map().all_visited());
}

#[test]
fn reset_returns_to_a_single_origin_node() {
    let mut debug = DebugObj::new(CharState::InDungeon, test_maze(), 0, 0);
    let mut solver = Solver::new();
    solver.explore_step(&mut debug, 0);
    solver.explore_step(&mut debug, 0);
    assert!(solver.map().len() > 1);
    solver.reset();
    assert_eq!(solver.map().len(), 1);
    assert_eq!(solver.current_pos(), (0, 0));
    assert!(!solver.map().get((0, 0)).unwrap().visited);
}

#[test]
fn direction_helpers() {
    assert_eq!(Up.delta(), (0, -1));
    assert_eq!(Down.delta(), (0, 1));
    assert_eq!(Left.delta(), (-1, 0));
    assert_eq!(Right.delta(), (1, 0));
    for d in ALL {
        assert_eq!(d.opposite().opposite(), d);
        let (dx, dy) = d.delta();
        let (ox, oy) = d.opposite().delta();
        assert_eq!((dx + ox, dy + oy), (0, 0));
    }
    assert_eq!(Left.to_key(), Key(0x41));
    assert_eq!(Up.to_key(), Key(0x57));
}

#[test]
fn node_helpers() {
    let node = Node::new(false, vec![(Left, (-1, 0)), (Left, (-2, 0))]);
    assert_eq!(node.get_neighbor(Left), Some((-2, 0)));
    assert_eq!(node.get_neighbor(Up), None);
    let visited = node.make_visited();
    assert!(visited.visited);
    assert_eq!(visited.get_neighbor(Left), Some((-2, 0)));
    assert_eq!(Node::default(), Node::new(false, vec![]));
}
