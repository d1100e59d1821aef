//! Layout of a layered node-and-edge graph inside a viewport.
//!
//! Layer `i` of `L` layers sits at `x = (i+1) * width / (L+1)`; node `j` of
//! the `n_i` nodes in that layer sits at `y = (j+1) * height / (n_i+1)`.
//! Every pair of adjacent layers is densely connected: one edge per node
//! pair, emitted whether or not its endpoints are currently visible
//! (clipping is the renderer's concern). The layout is a pure function of
//! `(layers, viewport)`: identical inputs give identical coordinates, which
//! keeps redraws stable under pan and zoom.

use vstd::prelude::*;
use crate::rat::{Rat, RatModel, lemma_div_below, lemma_mul_le};

verus! {

/// A positioned node: which layer it is in, its index there, and its world
/// coordinates.
#[derive(Clone, Copy, Debug, PartialEq, Eq, Structural)]
pub struct NodePos {
    pub layer: usize,
    pub index: usize,
    pub x: Rat,
    pub y: Rat,
}

/// A line segment joining a node to one node of the next layer.
#[derive(Clone, Copy, Debug, PartialEq, Eq, Structural)]
pub struct EdgeSeg {
    pub x1: Rat,
    pub y1: Rat,
    pub x2: Rat,
    pub y2: Rat,
}

/// Node and edge positions of the layered graph. `nodes[i][j]` is node `j`
/// of layer `i`; `edges[i]` joins layer `i` to layer `i + 1`, with the edge
/// from node `j` to node `k` at `j * n_{i+1} + k`.
pub struct TopologyLayout {
    pub nodes: Vec<Vec<NodePos>>,
    pub edges: Vec<Vec<EdgeSeg>>,
}

/// Horizontal position of layer `i` among `layer_count` layers in a
/// viewport `w` wide: `(i+1) * w / (layer_count+1)`.
pub open spec fn node_x(i: int, w: int, layer_count: int) -> RatModel {
    RatModel { n: (i + 1) * w, d: layer_count + 1 }
}

/// Vertical position of node `j` among `n_i` nodes in a viewport `h` high:
/// `(j+1) * h / (n_i+1)`.
pub open spec fn node_y(j: int, h: int, n_i: int) -> RatModel {
    RatModel { n: (j + 1) * h, d: n_i + 1 }
}

/// The node for `(layer i, index j)` with its formula coordinates.
pub open spec fn node_matches(n: NodePos, i: int, j: int, layers: Seq<u16>, w: int, h: int) -> bool {
    &&& n.layer == i
    &&& n.index == j
    &&& n.x.wf()
    &&& n.y.wf()
    &&& n.x@ == node_x(i, w, layers.len() as int)
    &&& n.y@ == node_y(j, h, layers[i] as int)
}

/// The edge joining node `j` of layer `i` to node `k` of layer `i + 1`.
pub open spec fn edge_matches(
    e: EdgeSeg,
    i: int,
    j: int,
    k: int,
    layers: Seq<u16>,
    w: int,
    h: int,
) -> bool {
    &&& e.x1.wf()
    &&& e.y1.wf()
    &&& e.x2.wf()
    &&& e.y2.wf()
    &&& e.x1@ == node_x(i, w, layers.len() as int)
    &&& e.y1@ == node_y(j, h, layers[i] as int)
    &&& e.x2@ == node_x(i + 1, w, layers.len() as int)
    &&& e.y2@ == node_y(k, h, layers[i + 1] as int)
}

/// Full characterization of a layout for `(layers, w, h)`: it pins the
/// shape and every coordinate, so any two layouts satisfying it are equal.
pub open spec fn layout_matches(t: TopologyLayout, layers: Seq<u16>, w: int, h: int) -> bool {
    let l = layers.len() as int;
    &&& t.nodes@.len() == l
    &&& forall|i: int| 0 <= i < l ==> (#[trigger] t.nodes@[i])@.len() == layers[i]
    &&& forall|i: int, j: int|
        0 <= i < l && 0 <= j < layers[i] ==> node_matches(
            #[trigger] t.nodes@[i]@[j],
            i,
            j,
            layers,
            w,
            h,
        )
    &&& t.edges@.len() == if l <= 1 {
        0int
    } else {
        l - 1
    }
    &&& forall|i: int| 0 <= i < l - 1 ==> (#[trigger] t.edges@[i])@.len() == layers[i] * layers[i
        + 1]
    &&& forall|i: int, j: int, k: int|
        0 <= i < l - 1 && 0 <= j < layers[i] && 0 <= k < layers[i + 1] ==> edge_matches(
            #[trigger] t.edges@[i]@[j * layers[i + 1] + k],
            i,
            j,
            k,
            layers,
            w,
            h,
        )
}

/// An index lexicographically before `(j, k)` in a row of width `nk` stays
/// below `j * nk`.
proof fn lemma_row_index_bound(a: int, b: int, j: int, nk: int)
    by (nonlinear_arith)
    requires
        0 <= a < j,
        0 <= b < nk,
    ensures
        a * nk + b < j * nk,
{
}

/// The coordinates of node `j` of a layer of `li` nodes at layer index `i`
/// of `l` layers.
fn node_point(i: usize, j: usize, li: u16, l: usize, w: u16, h: u16) -> (p: (Rat, Rat))
    requires
        i < l,
        l <= 0xffff,
        j < li,
    ensures
        p.0.wf(),
        p.1.wf(),
        p.0@ == node_x(i as int, w as int, l as int),
        p.1@ == node_y(j as int, h as int, li as int),
{
    proof {
        lemma_mul_le(i + 1, w as int, 0x10000, 0xffff);
        lemma_mul_le(j + 1, h as int, 0x10000, 0xffff);
    }
    let x = Rat { num: ((i as i64) + 1) * (w as i64), den: (l as i64) + 1 };
    let y = Rat { num: ((j as i64) + 1) * (h as i64), den: (li as i64) + 1 };
    (x, y)
}

/// Computes the layout: formula-placed nodes and a dense bipartite edge set
/// between each pair of adjacent layers. A pure function of its inputs —
/// `layout_matches` pins every coordinate, so two calls with the same
/// arguments produce the same layout (`lemma_layout_deterministic`).
pub fn layout(layers: &Vec<u16>, w: u16, h: u16) -> (t: TopologyLayout)
    requires
        layers@.len() <= 0xffff,
        forall|i: int| 0 <= i < layers@.len() ==> 1 <= #[trigger] layers@[i],
    ensures
        layout_matches(t, layers@, w as int, h as int),
{
    let l = layers.len();
    let mut nodes: Vec<Vec<NodePos>> = Vec::new();
    let mut i: usize = 0;
    while i < l
        invariant
            l == layers@.len(),
            l <= 0xffff,
            forall|a: int| 0 <= a < l ==> 1 <= #[trigger] layers@[a],
            i <= l,
            nodes@.len() == i,
            forall|a: int| 0 <= a < i ==> (#[trigger] nodes@[a])@.len() == layers@[a],
            forall|a: int, b: int|
                0 <= a < i && 0 <= b < layers@[a] ==> node_matches(
                    #[trigger] nodes@[a]@[b],
                    a,
                    b,
                    layers@,
                    w as int,
                    h as int,
                ),
        decreases l - i,
    {
        let li = layers[i];
        let mut row: Vec<NodePos> = Vec::new();
        let mut j: usize = 0;
        while j < li as usize
            invariant
                l == layers@.len(),
                l <= 0xffff,
                i < l,
                li == layers@[i as int],
                j <= li,
                row@.len() == j,
                forall|b: int|
                    0 <= b < j ==> node_matches(
                        #[trigger] row@[b],
                        i as int,
                        b,
                        layers@,
                        w as int,
                        h as int,
                    ),
            decreases li - j,
        {
            let (x, y) = node_point(i, j, li, l, w, h);
            row.push(NodePos { layer: i, index: j, x, y });
            j = j + 1;
        }
        nodes.push(row);
        i = i + 1;
    }
    let mut edges: Vec<Vec<EdgeSeg>> = Vec::new();
    if l > 0 {
        let mut i: usize = 0;
        while i + 1 < l
            invariant
                l == layers@.len(),
                l <= 0xffff,
                l >= 1,
                forall|a: int| 0 <= a < l ==> 1 <= #[trigger] layers@[a],
                i <= l - 1,
                edges@.len() == i,
                forall|a: int| 0 <= a < i ==> (#[trigger] edges@[a])@.len() == layers@[a]
                    * layers@[a + 1],
                forall|a: int, b: int, c: int|
                    0 <= a < i && 0 <= b < layers@[a] && 0 <= c < layers@[a + 1] ==> edge_matches(
                        #[trigger] edges@[a]@[b * layers@[a + 1] + c],
                        a,
                        b,
                        c,
                        layers@,
                        w as int,
                        h as int,
                    ),
            decreases l - i,
        {
            let ni = layers[i];
            let nk = layers[i + 1];
            let mut block: Vec<EdgeSeg> = Vec::new();
            let mut j: usize = 0;
            while j < ni as usize
                invariant
                    l == layers@.len(),
                    l <= 0xffff,
                    i + 1 < l,
                    ni == layers@[i as int],
                    nk == layers@[i as int + 1],
                    j <= ni,
                    block@.len() == j * nk,
                    forall|b: int, c: int|
                        0 <= b < j && 0 <= c < nk ==> edge_matches(
                            #[trigger] block@[b * nk + c],
                            i as int,
                            b,
                            c,
                            layers@,
                            w as int,
                            h as int,
                        ),
                decreases ni - j,
            {
                let mut k: usize = 0;
                while k < nk as usize
                    invariant
                        l == layers@.len(),
                        l <= 0xffff,
                        i + 1 < l,
                        ni == layers@[i as int],
                        nk == layers@[i as int + 1],
                        j < ni,
                        k <= nk,
                        block@.len() == j * nk + k,
                        forall|b: int, c: int|
                            (0 <= b < j && 0 <= c < nk) || (b == j && 0 <= c < k) ==> edge_matches(
                                #[trigger] block@[b * nk + c],
                                i as int,
                                b,
                                c,
                                layers@,
                                w as int,
                                h as int,
                            ),
                    decreases nk - k,
                {
                    let (x1, y1) = node_point(i, j, ni, l, w, h);
                    let (x2, y2) = node_point(i + 1, k, nk, l, w, h);
                    proof {
                        lemma_mul_le(j as int, nk as int, 0xffff, 0xffff);
                        assert forall|b: int, c: int| 0 <= b < j && 0 <= c < nk implies #[trigger] (
                        b * nk + c) < j * nk by {
                            lemma_row_index_bound(b, c, j as int, nk as int);
                        }
                    }
                    block.push(EdgeSeg { x1, y1, x2, y2 });
                    k = k + 1;
                }
                proof {
                    assert((j + 1) * (nk as int) == j * (nk as int) + nk) by (nonlinear_arith);
                }
                j = j + 1;
            }
            edges.push(block);
            i = i + 1;
        }
    }
    TopologyLayout { nodes, edges }
}

/// Law: the layout is a pure function — any two layouts of the same
/// `(layers, viewport)` have identical node and edge coordinate sets.
pub proof fn lemma_layout_deterministic(
    a: &TopologyLayout,
    b: &TopologyLayout,
    layers: Seq<u16>,
    w: int,
    h: int,
)
    requires
        layout_matches(*a, layers, w, h),
        layout_matches(*b, layers, w, h),
    ensures
        a.nodes@.len() == b.nodes@.len(),
        forall|i: int| 0 <= i < a.nodes@.len() ==> (#[trigger] a.nodes@[i])@ == b.nodes@[i]@,
        a.edges@.len() == b.edges@.len(),
        forall|i: int| 0 <= i < a.edges@.len() ==> (#[trigger] a.edges@[i])@ == b.edges@[i]@,
{
    let l = layers.len() as int;
    assert forall|i: int| 0 <= i < a.nodes@.len() implies (#[trigger] a.nodes@[i])@ == b.nodes@[i]@
        by {
        assert forall|j: int| 0 <= j < layers[i] implies a.nodes@[i]@[j] == b.nodes@[i]@[j] by {
            let na = a.nodes@[i]@[j];
            let nb = b.nodes@[i]@[j];
            assert(node_matches(na, i, j, layers, w, h));
            assert(node_matches(nb, i, j, layers, w, h));
        }
        assert(a.nodes@[i]@ =~= b.nodes@[i]@);
    }
    assert forall|i: int| 0 <= i < a.edges@.len() implies (#[trigger] a.edges@[i])@ == b.edges@[i]@
        by {
        let ni = layers[i] as int;
        let nk = layers[i + 1] as int;
        assert forall|t: int| 0 <= t < ni * nk implies a.edges@[i]@[t] == b.edges@[i]@[t] by {
            vstd::arithmetic::div_mod::lemma_fundamental_div_mod(t, nk);
            lemma_div_below(t, nk, ni);
            let j = t / nk;
            let k = t % nk;
            assert(nk * j == j * nk) by (nonlinear_arith);
            assert(t == j * nk + k);
            assert(edge_matches(a.edges@[i]@[j * nk + k], i, j, k, layers, w, h));
            assert(edge_matches(b.edges@[i]@[j * nk + k], i, j, k, layers, w, h));
        }
        assert(a.edges@[i]@ =~= b.edges@[i]@);
    }
}

} // verus!
