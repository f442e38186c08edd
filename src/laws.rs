//! Laws of the tree, stated over the models that the operations' contracts use.
use vstd::prelude::*;
use crate::error::MerkleError;
use crate::node::{Leaf, Neighbor, Node, fold_path, path_sum, parent_spec, parent_node, sum_fits, zero_node};
use crate::tree::{
    TreeModel, buildable, next_level, pairs_fit, padded_nodes, tree_height, max_leafs, height_from,
    cap_from, lemma_cap_at_most, lemma_two_pow_mono, two_pow, lsize, lstart, pos, lemma_level_ends, lemma_level_step, lemma_pos_bound,
    lemma_index_in_range,
};

verus! {

/// Shape: the flat array holds `2·|leafs| − 1` nodes and `|leafs|` is a power of two.
pub proof fn law_tree_shape(t: TreeModel)
    requires
        t.wf(),
    ensures
        t.nodes.len() == 2 * t.leafs.len() - 1,
        t.leafs.len() == two_pow((t.height - 1) as nat),
{
}

/// The zero slots: strictly increasing, and exactly the positions of zero-leaves.
pub proof fn law_zero_index_exact(t: TreeModel)
    requires
        t.wf(),
    ensures
        forall|a: int, b: int| 0 <= a < b < t.zero_index.len() ==> t.zero_index[a] < t.zero_index[b],
        forall|x: usize|
            x < t.leafs.len() ==> (t.zero_index.contains(x) <==> (
            #[trigger] t.leafs[x as int]).is_zero()),
{
    assert forall|x: usize| x < t.leafs.len() implies (t.zero_index.contains(x) <==> (
    #[trigger] t.leafs[x as int]).is_zero()) by {
        if t.zero_index.contains(x) {
            let k = choose|k: int| 0 <= k < t.zero_index.len() && t.zero_index[k] == x;
            assert(t.zero_index[k] < t.leafs.len());
        }
    }
}

/// Every internal node is the parent of its two children: for node `m` of level `l + 1`,
/// the children are nodes `2m` and `2m + 1` of level `l`.
pub proof fn law_parents(t: TreeModel, l: int, m: int)
    requires
        t.wf(),
        0 <= l < t.height - 1,
        0 <= m < lsize(t.height, l + 1),
    ensures
        parent_spec(
            t.nodes[lstart(t.height, l) + 2 * m],
            t.nodes[lstart(t.height, l) + 2 * m + 1],
        ) == Ok::<Node, MerkleError>(t.nodes[lstart(t.height, l + 1) + m]),
{
    assert(t.parent_holds(l, m));
}

/// Folding the proof path of leaf `i` onto its node reaches the ancestor on each level.
proof fn lemma_proof_prefix(t: TreeModel, i: int, l: int)
    requires
        t.wf(),
        0 <= i < t.leafs.len(),
        0 <= l <= t.height - 1,
    ensures
        fold_path(t.leafs[i].node(), t.proof_path(i).subrange(0, l)) == Ok::<Node, MerkleError>(
            t.at(l, pos(i, l as nat)),
        ),
    decreases l,
{
    let h = t.height;
    let pp = t.proof_path(i);
    lemma_level_ends(h);
    if l == 0 {
        assert(pp.subrange(0, 0) =~= Seq::<Neighbor>::empty());
        assert(t.at(0, i) == t.nodes[i]);
    } else {
        let k = l - 1;
        lemma_proof_prefix(t, i, k);
        lemma_pos_bound(h, i, k);
        lemma_level_step(h, k);
        assert(pp.subrange(0, l).drop_last() =~= pp.subrange(0, k));
        assert(pp.subrange(0, l).last() == t.neighbor_at(i, k));
        let p = pos(i, k as nat);
        assert(pos(i, l as nat) == p / 2);
        assert(t.parent_holds(k, p / 2));
    }
}

/// A proof from `get_proof` verifies: its path folds onto its leaf to give the root.
pub proof fn law_proof_verifies(t: TreeModel, i: int)
    requires
        t.wf(),
        0 <= i < t.leafs.len(),
    ensures
        fold_path(t.leafs[i].node(), t.proof_path(i)) == Ok::<Node, MerkleError>(t.root()),
{
    let h = t.height;
    lemma_proof_prefix(t, i, h - 1);
    lemma_level_ends(h);
    lemma_pos_bound(h, i, h - 1);
    assert(t.proof_path(i).subrange(0, h - 1) =~= t.proof_path(i));
}

/// The sum of the values of leaves `lo .. hi`.
pub open spec fn leaf_sum(leafs: Seq<Leaf>, lo: int, hi: int) -> int
    decreases hi - lo,
{
    if hi <= lo {
        0
    } else {
        leaf_sum(leafs, lo, hi - 1) + leafs[hi - 1].node().value
    }
}

proof fn lemma_leaf_sum_split(leafs: Seq<Leaf>, lo: int, mid: int, hi: int)
    requires
        lo <= mid <= hi,
    ensures
        leaf_sum(leafs, lo, hi) == leaf_sum(leafs, lo, mid) + leaf_sum(leafs, mid, hi),
    decreases hi - mid,
{
    if mid < hi {
        lemma_leaf_sum_split(leafs, lo, mid, hi - 1);
    }
}

/// Node `m` of level `l` holds the sum of the leaves below it.
proof fn lemma_block_sum(t: TreeModel, l: int, m: int)
    requires
        t.wf(),
        0 <= l <= t.height - 1,
        0 <= m < lsize(t.height, l),
    ensures
        t.at(l, m).value == leaf_sum(t.leafs, m * two_pow(l as nat), (m + 1) * two_pow(l as nat)),
    decreases l,
{
    let h = t.height;
    lemma_level_ends(h);
    if l == 0 {
        assert(t.at(0, m) == t.nodes[m]);
        assert(leaf_sum(t.leafs, m, m) == 0);
    } else {
        let k = l - 1;
        let x = two_pow(k as nat);
        lemma_level_step(h, k);
        lemma_block_sum(t, k, 2 * m);
        lemma_block_sum(t, k, 2 * m + 1);
        assert(t.parent_holds(k, m));
        assert(two_pow(l as nat) == 2 * x);
        assert(m * (2 * x) == (2 * m) * x) by (nonlinear_arith);
        assert((m + 1) * (2 * x) == (2 * m + 2) * x) by (nonlinear_arith);
        assert((2 * m + 1) * x == (2 * m) * x + x) by (nonlinear_arith);
        assert((2 * m + 2) * x == (2 * m + 1) * x + x) by (nonlinear_arith);
        assert(0 <= x) by {
            crate::tree::lemma_two_pow_pos(k as nat);
        }
        assert((2 * m) * x <= (2 * m + 1) * x) by (nonlinear_arith)
            requires 0 <= x, 0 <= m;
        lemma_leaf_sum_split(t.leafs, (2 * m) * x, (2 * m + 1) * x, (2 * m + 2) * x);
    }
}

/// The root's value is the sum of all leaf values.
pub proof fn law_root_sum(t: TreeModel)
    requires
        t.wf(),
    ensures
        t.root().value == leaf_sum(t.leafs, 0, t.leafs.len() as int),
{
    let h = t.height;
    lemma_level_ends(h);
    lemma_block_sum(t, h - 1, 0);
    assert(t.at(h - 1, 0) == t.root());
}

proof fn lemma_leaf_sum_agree(a: Seq<Leaf>, b: Seq<Leaf>, lo: int, hi: int)
    requires
        forall|j: int| lo <= j < hi ==> (#[trigger] a[j]).node().value == b[j].node().value,
    ensures
        leaf_sum(a, lo, hi) == leaf_sum(b, lo, hi),
    decreases hi - lo,
{
    if lo < hi {
        lemma_leaf_sum_agree(a, b, lo, hi - 1);
    }
}

proof fn lemma_leaf_sum_zeros(a: Seq<Leaf>, lo: int, hi: int)
    requires
        forall|j: int| lo <= j < hi ==> (#[trigger] a[j]).is_zero(),
    ensures
        leaf_sum(a, lo, hi) == 0,
    decreases hi - lo,
{
    if lo < hi {
        lemma_leaf_sum_zeros(a, lo, hi - 1);
    }
}

proof fn lemma_leaf_sum_update(a: Seq<Leaf>, z: int, x: Leaf, hi: int)
    requires
        0 <= z < hi <= a.len(),
    ensures
        leaf_sum(a.update(z, x), 0, hi) == leaf_sum(a, 0, hi) - a[z].node().value + x.node().value,
    decreases hi,
{
    if hi - 1 == z {
        lemma_leaf_sum_agree(a.update(z, x), a, 0, hi - 1);
    } else {
        lemma_leaf_sum_update(a, z, x, hi - 1);
    }
}

/// A push into a zero slot adds the pushed value to the root's sum.
pub proof fn law_push_into_zero_slot_sum(t0: TreeModel, t1: TreeModel, z: int, leaf: Leaf)
    requires
        t0.wf(),
        t1.wf(),
        0 <= z < t0.leafs.len(),
        t0.leafs[z].is_zero(),
        t1.leafs == t0.leafs.update(z, leaf),
    ensures
        t1.root().value == t0.root().value + leaf.node().value,
{
    law_root_sum(t0);
    law_root_sum(t1);
    lemma_leaf_sum_update(t0.leafs, z, leaf, t0.leafs.len() as int);
}

/// A push that rebuilt the tree adds the pushed value to the root's sum: the new leaves are
/// the old ones, the pushed leaf, and zero-leaves.
pub proof fn law_push_rebuilt_sum(t0: TreeModel, t1: TreeModel, leaf: Leaf)
    requires
        t0.wf(),
        t1.wf(),
        t1.leafs.len() > t0.leafs.len(),
        t1.leafs.subrange(0, t0.leafs.len() + 1int) == t0.leafs.push(leaf),
        forall|j: int| t0.leafs.len() < j < t1.leafs.len() ==> (#[trigger] t1.leafs[j]).is_zero(),
    ensures
        t1.root().value == t0.root().value + leaf.node().value,
{
    let n = t0.leafs.len() as int;
    law_root_sum(t0);
    law_root_sum(t1);
    lemma_leaf_sum_split(t1.leafs, 0, n + 1, t1.leafs.len() as int);
    lemma_leaf_sum_zeros(t1.leafs, n + 1, t1.leafs.len() as int);
    assert forall|j: int| 0 <= j < n implies (#[trigger] t1.leafs[j]).node().value == t0.leafs[j].node().value by {
        assert(t1.leafs.subrange(0, n + 1)[j] == t1.leafs[j]);
    }
    lemma_leaf_sum_agree(t1.leafs, t0.leafs, 0, n);
    assert(t1.leafs.subrange(0, n + 1)[n] == t1.leafs[n]);
}

/// The sum of the values of the first `hi` nodes of `s`.
pub open spec fn node_sum(s: Seq<Node>, hi: int) -> int
    decreases hi,
{
    if hi <= 0 {
        0
    } else {
        node_sum(s, hi - 1) + s[hi - 1].value
    }
}

proof fn lemma_node_sum_bounds(s: Seq<Node>, hi: int, a: int, b: int)
    requires
        0 <= hi <= s.len(),
        forall|j: int| 0 <= j < s.len() ==> (#[trigger] s[j]).value >= 0,
        0 <= a < b < hi,
    ensures
        0 <= node_sum(s, hi),
        s[a].value + s[b].value <= node_sum(s, hi),
    decreases hi,
{
    lemma_node_sum_nonneg(s, hi);
    if b < hi - 1 {
        lemma_node_sum_bounds(s, hi - 1, a, b);
    } else {
        lemma_node_sum_single(s, hi - 1, a);
    }
}

proof fn lemma_node_sum_nonneg(s: Seq<Node>, hi: int)
    requires
        0 <= hi <= s.len(),
        forall|j: int| 0 <= j < s.len() ==> (#[trigger] s[j]).value >= 0,
    ensures
        0 <= node_sum(s, hi),
    decreases hi,
{
    if hi > 0 {
        lemma_node_sum_nonneg(s, hi - 1);
    }
}

proof fn lemma_node_sum_single(s: Seq<Node>, hi: int, a: int)
    requires
        0 <= hi <= s.len(),
        forall|j: int| 0 <= j < s.len() ==> (#[trigger] s[j]).value >= 0,
        0 <= a < hi,
    ensures
        s[a].value <= node_sum(s, hi),
    decreases hi,
{
    lemma_node_sum_nonneg(s, hi - 1);
    if a < hi - 1 {
        lemma_node_sum_single(s, hi - 1, a);
    }
}

/// When every pair fits, the level above carries the same total.
proof fn lemma_next_level_sum(level: Seq<Node>, m: int)
    requires
        pairs_fit(level),
        0 <= m <= level.len() / 2,
    ensures
        node_sum(next_level(level), m) == node_sum(level, 2 * m),
    decreases m,
{
    if m > 0 {
        lemma_next_level_sum(level, m - 1);
        let j = m - 1;
        assert(sum_fits(level[2 * j], level[2 * j + 1]));
        assert(next_level(level)[j] == parent_node(level[2 * j], level[2 * j + 1]));
        assert(node_sum(level, 2 * j + 1) == node_sum(level, 2 * j) + level[2 * j].value);
        assert(node_sum(level, 2 * j + 2) == node_sum(level, 2 * j + 1) + level[2 * j + 1].value);
    }
}

/// A level of `2^k` nodes with no negative value can be built up to a root exactly when its
/// total fits in `i32`.
pub proof fn law_nonnegative_level_builds(level: Seq<Node>, k: nat)
    requires
        level.len() == two_pow(k),
        forall|j: int| 0 <= j < level.len() ==> (#[trigger] level[j]).value >= 0,
    ensures
        buildable(level) <==> node_sum(level, level.len() as int) <= i32::MAX,
    decreases k,
{
    let n = level.len() as int;
    if k == 0 {
        assert(node_sum(level, 0) == 0);
        assert(node_sum(level, 1) == level[0].value);
    } else {
        crate::tree::lemma_two_pow_pos((k - 1) as nat);
        assert(n == 2 * two_pow((k - 1) as nat));
        let total = node_sum(level, n);
        if total <= i32::MAX {
            assert forall|j: int| 0 <= j < n / 2 implies #[trigger] sum_fits(level[2 * j], level[2 * j + 1]) by {
                lemma_node_sum_bounds(level, n, 2 * j, 2 * j + 1);
            }
        }
        if pairs_fit(level) {
            let up = next_level(level);
            lemma_next_level_sum(level, n / 2);
            assert forall|j: int| 0 <= j < up.len() implies (#[trigger] up[j]).value >= 0 by {
                assert(sum_fits(level[2 * j], level[2 * j + 1]));
            }
            law_nonnegative_level_builds(up, (k - 1) as nat);
        } else {
            let j = choose|j: int| 0 <= j < n / 2 && !#[trigger] sum_fits(level[2 * j], level[2 * j + 1]);
            lemma_node_sum_bounds(level, n, 2 * j, 2 * j + 1);
        }
    }
}

proof fn lemma_padded_sum(leafs: Seq<Leaf>, size: int, hi: int)
    requires
        0 <= hi <= size,
        leafs.len() <= size,
    ensures
        node_sum(padded_nodes(leafs, size), hi) == leaf_sum(
            leafs,
            0,
            if hi < leafs.len() { hi } else { leafs.len() as int },
        ),
    decreases hi,
{
    if hi > 0 {
        lemma_padded_sum(leafs, size, hi - 1);
    }
}

proof fn lemma_tree_height_fits(n: int, h: int)
    requires
        1 <= h <= 64,
        n <= two_pow(63),
    ensures
        n <= two_pow((height_from(n, h) - 1) as nat),
    decreases 64 - h,
{
    if !(h >= 64 || n <= two_pow((h - 1) as nat)) {
        lemma_tree_height_fits(n, h + 1);
    }
}

/// `new` on leaves with no negative value succeeds exactly when their total fits in `i32`
/// (when it fails, it fails with an overflow); on success the root's sum is that total.
pub proof fn law_new_nonnegative(leafs: Seq<Leaf>)
    requires
        0 < leafs.len() <= max_leafs(),
        forall|j: int| 0 <= j < leafs.len() ==> (#[trigger] leafs[j]).node().value >= 0,
    ensures
        buildable(
            padded_nodes(leafs, two_pow((tree_height(leafs.len() as int) - 1) as nat) as int),
        ) <==> leaf_sum(leafs, 0, leafs.len() as int) <= i32::MAX,
{
    lemma_cap_at_most(1);
    crate::tree::lemma_cap_from_self(1);
    lemma_two_pow_mono((cap_from(1) - 1) as nat, 63);
    lemma_tree_height_fits(leafs.len() as int, 1);
    let k = (tree_height(leafs.len() as int) - 1) as nat;
    let size = two_pow(k) as int;
    let level = padded_nodes(leafs, size);
    assert forall|j: int| 0 <= j < level.len() implies (#[trigger] level[j]).value >= 0 by {
    }
    lemma_padded_sum(leafs, size, size);
    law_nonnegative_level_builds(level, k);
}

/// A fold that succeeds adds up the values: the start's and every neighbour's.
pub proof fn lemma_fold_value(start: Node, path: Seq<Neighbor>)
    requires
        fold_path(start, path) is Ok,
    ensures
        fold_path(start, path)->Ok_0.value == start.value + path_sum(path),
    decreases path.len(),
{
    if path.len() > 0 {
        lemma_fold_value(start, path.drop_last());
    }
}

/// A proof whose leaf and neighbour values do not add up to the root's sum is rejected:
/// changing any one value of a valid proof is caught.
pub proof fn law_value_tampering_rejected(t: TreeModel, start: Node, path: Seq<Neighbor>)
    requires
        t.wf(),
        start.value + path_sum(path) != t.root().value,
    ensures
        fold_path(start, path) is Ok ==> fold_path(start, path)->Ok_0 != t.root(),
{
    if fold_path(start, path) is Ok {
        lemma_fold_value(start, path);
    }
}

/// Two trees of one height whose leaves carry the same nodes agree on every node up to
/// the end of level `l`.
proof fn lemma_nodes_agree_upto(a: TreeModel, b: TreeModel, l: int)
    requires
        a.wf(),
        b.wf(),
        a.height == b.height,
        forall|i: int| 0 <= i < a.leafs.len() ==> (#[trigger] a.leafs[i]).node() == b.leafs[i].node(),
        0 <= l <= a.height - 1,
    ensures
        forall|q: int| 0 <= q < lstart(a.height, l) + lsize(a.height, l) ==> a.nodes[q] == b.nodes[q],
    decreases l,
{
    let h = a.height;
    lemma_level_ends(h);
    if l == 0 {
        assert forall|q: int| 0 <= q < lstart(h, 0) + lsize(h, 0) implies a.nodes[q] == b.nodes[q] by {
            assert(a.leafs[q].node() == b.leafs[q].node());
        }
    } else {
        let k = l - 1;
        lemma_nodes_agree_upto(a, b, k);
        lemma_level_step(h, k);
        assert forall|q: int| 0 <= q < lstart(h, l) + lsize(h, l) implies a.nodes[q] == b.nodes[q] by {
            if q >= lstart(h, l) {
                let m = q - lstart(h, l);
                assert(a.parent_holds(k, m));
                assert(b.parent_holds(k, m));
                lemma_index_in_range(h, k, 2 * m + 1);
            }
        }
    }
}

/// The leaves' nodes determine the whole tree.
pub proof fn lemma_nodes_determined(a: TreeModel, b: TreeModel)
    requires
        a.wf(),
        b.wf(),
        a.height == b.height,
        forall|i: int| 0 <= i < a.leafs.len() ==> (#[trigger] a.leafs[i]).node() == b.leafs[i].node(),
    ensures
        a.nodes == b.nodes,
{
    lemma_level_ends(a.height);
    lemma_nodes_agree_upto(a, b, a.height - 1);
    assert(a.nodes =~= b.nodes);
}

/// Removing leaf `i` and then setting the old leaf back restores the root, hash and sum:
/// on the tree that `remove(i)` left (same height, same leaves but slot `i`, same siblings on
/// the path of `i`), folding the old leaf along the path of `i` succeeds and gives the old
/// root, which is what `set_leaf` makes the new root.
pub proof fn law_remove_then_restore(t0: TreeModel, t1: TreeModel, i: int)
    requires
        t0.wf(),
        t1.wf(),
        0 <= i < t0.leafs.len(),
        t1.height == t0.height,
        t1.leafs == t0.leafs.update(i, t1.leafs[i]),
        t1.proof_path(i) == t0.proof_path(i),
    ensures
        fold_path(t0.leafs[i].node(), t1.proof_path(i)) == Ok::<Node, MerkleError>(t0.root()),
{
    law_proof_verifies(t0, i);
}

/// Setting back the old leaves gives back the old tree: two trees of one height with the
/// same leaves have the same nodes.
pub proof fn law_same_leaves_same_tree(a: TreeModel, b: TreeModel)
    requires
        a.wf(),
        b.wf(),
        a.height == b.height,
        a.leafs == b.leafs,
    ensures
        a.nodes == b.nodes,
        a.root() == b.root(),
{
    lemma_nodes_determined(a, b);
}

/// A push into a zero slot `z` followed by `remove(z)` restores the root: on the tree that
/// the push left (same siblings on the path of `z`), folding the zero-leaf along that path
/// succeeds and gives the root from before the push.
pub proof fn law_push_into_zero_slot_then_remove(t0: TreeModel, t1: TreeModel, z: int)
    requires
        t0.wf(),
        t1.wf(),
        0 <= z < t0.leafs.len(),
        t0.leafs[z].is_zero(),
        t1.height == t0.height,
        t1.proof_path(z) == t0.proof_path(z),
    ensures
        fold_path(zero_node(), t1.proof_path(z)) == Ok::<Node, MerkleError>(t0.root()),
{
    Leaf::lemma_zero_leaf_node(t0.leafs[z]);
    law_proof_verifies(t0, z);
}

/// After a push into a zero slot `z` and `remove(z)`, the tree has the nodes it had before
/// the push.
pub proof fn law_push_then_remove_same_nodes(
    t0: TreeModel,
    t1: TreeModel,
    t2: TreeModel,
    z: int,
    leaf: Leaf,
)
    requires
        t0.wf(),
        t1.wf(),
        t2.wf(),
        0 <= z < t0.leafs.len(),
        t0.leafs[z].is_zero(),
        t1.height == t0.height,
        t2.height == t1.height,
        t1.leafs == t0.leafs.update(z, leaf),
        t2.leafs == t1.leafs.update(z, t2.leafs[z]),
        t2.leafs[z].is_zero(),
    ensures
        t2.nodes == t0.nodes,
        t2.root() == t0.root(),
{
    Leaf::lemma_zero_leaf_node(t0.leafs[z]);
    Leaf::lemma_zero_leaf_node(t2.leafs[z]);
    assert forall|i: int| 0 <= i < t2.leafs.len() implies (#[trigger] t2.leafs[i]).node()
        == t0.leafs[i].node() by {
    }
    lemma_nodes_determined(t2, t0);
}

/// A push that rebuilt the tree, followed by the removal of the pushed slot, leaves the
/// root of the tree built from the old leaves padded with zero-leaves to the new size.
pub proof fn law_push_rebuilt_then_remove(
    t0: TreeModel,
    t2: TreeModel,
    t3: TreeModel,
    leaf: Leaf,
)
    requires
        t0.wf(),
        t2.wf(),
        t3.wf(),
        t2.height == t3.height,
        t2.leafs.len() > t0.leafs.len(),
        forall|j: int| 0 <= j < t0.leafs.len() ==> #[trigger] t2.leafs[j] == t0.leafs[j],
        forall|j: int| t0.leafs.len() <= j < t2.leafs.len() ==> (#[trigger] t2.leafs[j]).is_zero(),
        forall|j: int| 0 <= j < t0.leafs.len() ==> #[trigger] t3.leafs[j] == t0.leafs[j],
        forall|j: int| t0.leafs.len() <= j < t3.leafs.len() ==> (#[trigger] t3.leafs[j]).is_zero(),
    ensures
        t2.root() == t3.root(),
{
    assert forall|i: int| 0 <= i < t2.leafs.len() implies (#[trigger] t2.leafs[i]).node()
        == t3.leafs[i].node() by {
        if i >= t0.leafs.len() {
            Leaf::lemma_zero_leaf_node(t2.leafs[i]);
            Leaf::lemma_zero_leaf_node(t3.leafs[i]);
        }
    }
    lemma_nodes_determined(t2, t3);
}

} // verus!
