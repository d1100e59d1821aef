use netviz::rat::Rat;
use netviz::topology::layout;

#[test]
fn layout_places_nodes_by_the_formula() {
    let layers: Vec<u16> = vec![2, 3];
    let t = layout(&layers, 40, 20);
    assert_eq!(t.nodes.len(), 2);
    assert_eq!(t.nodes[0].len(), 2);
    assert_eq!(t.nodes[1].len(), 3);
    // node 0 of layer 0: x = 40/3 (~13.33), y = 20/3 (~6.67)
    let n = &t.nodes[0][0];
    assert_eq!(n.layer, 0);
    assert_eq!(n.index, 0);
    assert!(n.x.eqv(&Rat { num: 40, den: 3 }));
    assert!(n.y.eqv(&Rat { num: 20, den: 3 }));
    // node 1 of layer 1: x = 80/3, y = 2*20/4 = 10
    let m = &t.nodes[1][1];
    assert!(m.x.eqv(&Rat { num: 80, den: 3 }));
    assert!(m.y.eqv(&Rat { num: 10, den: 1 }));
}

#[test]
fn every_adjacent_node_pair_gets_one_edge() {
    let layers: Vec<u16> = vec![2, 3];
    let t = layout(&layers, 40, 20);
    assert_eq!(t.edges.len(), 1);
    assert_eq!(t.edges[0].len(), 6);
    // node 0 of layer 0 has exactly 3 outgoing edges, one per node of
    // layer 1, at block indices 0..3
    for k in 0..3usize {
        let e = &t.edges[0][k];
        assert!(e.x1.eqv(&Rat { num: 40, den: 3 }));
        assert!(e.y1.eqv(&Rat { num: 20, den: 3 }));
        assert!(e.x2.eqv(&Rat { num: 80, den: 3 }));
        assert!(e.y2.eqv(&Rat { num: (k as i64 + 1) * 20, den: 4 }));
    }
    // and none of the remaining edges starts at node 0 of layer 0
    for k in 3..6usize {
        assert!(!t.edges[0][k].y1.eqv(&Rat { num: 20, den: 3 }));
    }
}

#[test]
fn layout_is_deterministic() {
    let layers: Vec<u16> = vec![2, 7, 5, 2, 4, 1];
    let a = layout(&layers, 120, 48);
    let b = layout(&layers, 120, 48);
    assert_eq!(a.nodes, b.nodes);
    assert_eq!(a.edges, b.edges);
}

#[test]
fn single_and_empty_layer_lists_have_no_edges() {
    let t = layout(&vec![5u16], 40, 20);
    assert_eq!(t.nodes.len(), 1);
    assert_eq!(t.nodes[0].len(), 5);
    assert_eq!(t.edges.len(), 0);
    let e = layout(&vec![], 40, 20);
    assert_eq!(e.nodes.len(), 0);
    assert_eq!(e.edges.len(), 0);
}
