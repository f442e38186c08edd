//! The Merkle sum tree: a padded perfect binary tree stored level by level in one array.
use vstd::prelude::*;
use crate::error::MerkleError;
use crate::field::{Fr, lemma_fr_of_value};
use crate::mimc_sponge::{MimcSponge, values};
use crate::node::{
    Leaf, Neighbor, Node, Position, InclusionProof, fold_path, parent_spec, parent_hash,
    parent_node, sum_fits, zero_node,
};

verus! {

/// Two to the `k`.
pub open spec fn two_pow(k: nat) -> nat
    decreases k,
{
    if k == 0 {
        1
    } else {
        2 * two_pow((k - 1) as nat)
    }
}

/// The number of nodes on level `l` of a tree of height `h` (level 0 holds the leaves).
pub open spec fn lsize(h: int, l: int) -> int {
    two_pow((h - 1 - l) as nat) as int
}

/// The flat index of the first node of level `l`.
pub open spec fn lstart(h: int, l: int) -> int {
    2 * two_pow((h - 1) as nat) - 2 * two_pow((h - 1 - l) as nat)
}

/// The position within level `l` of the ancestor of leaf `i`.
pub open spec fn pos(i: int, l: nat) -> int
    decreases l,
{
    if l == 0 {
        i
    } else {
        pos(i, (l - 1) as nat) / 2
    }
}

/// In the flat array `nodes` of a tree of height `h`, node `m` of level `l + 1` is the
/// parent of nodes `2m` and `2m + 1` of level `l`.
pub open spec fn parent_rel(nodes: Seq<Node>, h: int, l: int, m: int) -> bool {
    parent_spec(nodes[lstart(h, l) + 2 * m], nodes[lstart(h, l) + 2 * m + 1]) == Ok::<
        Node,
        MerkleError,
    >(nodes[lstart(h, l + 1) + m])
}

/// Every pair of neighbours on a level has a sum that fits in `i32`.
pub open spec fn pairs_fit(level: Seq<Node>) -> bool {
    forall|j: int| 0 <= j < level.len() / 2 ==> #[trigger] sum_fits(level[2 * j], level[2 * j + 1])
}

/// The level above: the parent of each pair of neighbours.
pub open spec fn next_level(level: Seq<Node>) -> Seq<Node> {
    Seq::new(level.len() / 2, |j: int| parent_node(level[2 * j], level[2 * j + 1]))
}

/// Levels can be built from `level` up to a single node without overflow.
pub open spec fn buildable(level: Seq<Node>) -> bool
    decreases level.len(),
{
    if level.len() <= 1 {
        true
    } else {
        pairs_fit(level) && buildable(next_level(level))
    }
}

/// The smallest height at or above `h` whose bottom level holds `n` leaves, capped at 64.
pub open spec fn height_from(n: int, h: int) -> int
    decreases 64 - h,
{
    if h >= 64 || n <= two_pow((h - 1) as nat) {
        h
    } else {
        height_from(n, h + 1)
    }
}

/// The height of a tree built from `n` leaves.
pub open spec fn tree_height(n: int) -> int {
    height_from(n, 1)
}

/// The greatest height at or above `h`, and at most 64, whose bottom level has a size that
/// `usize` can double: 64 on a 64-bit target.
pub open spec fn cap_from(h: int) -> int
    decreases 64 - h,
{
    if h >= 64 || 2 * two_pow((h - 1) as nat) > usize::MAX {
        h
    } else {
        cap_from(h + 1)
    }
}

/// The most leaves a tree can hold: 2^63 on a 64-bit target.
pub open spec fn max_leafs() -> int {
    two_pow((cap_from(1) - 1) as nat) as int
}

/// The leaf nodes of `leafs`, padded with zero nodes up to `size`.
pub open spec fn padded_nodes(leafs: Seq<Leaf>, size: int) -> Seq<Node> {
    Seq::new(size as nat, |j: int| if j < leafs.len() { leafs[j].node() } else { zero_node() })
}

/// `padded` is `leafs` followed by zero-leaves up to the size of a tree for them.
pub open spec fn is_padding_of(padded: Seq<Leaf>, leafs: Seq<Leaf>) -> bool {
    &&& padded.len() == two_pow((tree_height(leafs.len() as int) - 1) as nat)
    &&& leafs.len() <= padded.len()
    &&& padded.subrange(0, leafs.len() as int) == leafs
    &&& forall|j: int| leafs.len() <= j < padded.len() ==> (#[trigger] padded[j]).is_zero() && padded[j].wf()
}

/// A tree as values: leaves, flat nodes, height, and the zero slots.
pub ghost struct TreeModel {
    pub leafs: Seq<Leaf>,
    pub nodes: Seq<Node>,
    pub height: int,
    pub zero_index: Seq<usize>,
}

impl TreeModel {
    /// Node `m` of level `l`.
    pub open spec fn at(self, l: int, m: int) -> Node {
        self.nodes[lstart(self.height, l) + m]
    }

    /// Node `m` of level `l + 1` is the parent of nodes `2m` and `2m + 1` of level `l`.
    pub open spec fn parent_holds(self, l: int, m: int) -> bool {
        parent_rel(self.nodes, self.height, l, m)
    }

    /// The root node.
    pub open spec fn root(self) -> Node {
        self.nodes.last()
    }

    pub open spec fn zero_index_ok(self) -> bool {
        let zi = self.zero_index;
        &&& forall|a: int, b: int| 0 <= a < b < zi.len() ==> zi[a] < zi[b]
        &&& forall|k: int|
            0 <= k < zi.len() ==> #[trigger] zi[k] < self.leafs.len() && self.leafs[zi[k] as int].is_zero()
        &&& forall|i: int|
            0 <= i < self.leafs.len() && (#[trigger] self.leafs[i]).is_zero() ==> zi.contains(
                i as usize,
            )
    }

    pub open spec fn wf(self) -> bool {
        let h = self.height;
        &&& 1 <= h <= 64
        &&& self.leafs.len() == two_pow((h - 1) as nat)
        &&& self.nodes.len() == 2 * self.leafs.len() - 1
        &&& forall|i: int| 0 <= i < self.leafs.len() ==> (#[trigger] self.leafs[i]).wf()
        &&& forall|i: int|
            0 <= i < self.leafs.len() ==> self.nodes[i] == (#[trigger] self.leafs[i]).node()
        &&& forall|l: int, m: int|
            0 <= l < h - 1 && 0 <= m < lsize(h, l + 1) ==> #[trigger] self.parent_holds(l, m)
        &&& self.zero_index_ok()
    }

    /// The sibling of the ancestor of leaf `i` on level `l`, and its side.
    pub open spec fn neighbor_at(self, i: int, l: int) -> Neighbor {
        let p = pos(i, l as nat);
        if p % 2 == 0 {
            Neighbor { position: Position::Right, node: self.at(l, p + 1) }
        } else {
            Neighbor { position: Position::Left, node: self.at(l, p - 1) }
        }
    }

    /// The proof path of leaf `i`: one sibling per level below the root.
    pub open spec fn proof_path(self, i: int) -> Seq<Neighbor> {
        Seq::new((self.height - 1) as nat, |l: int| self.neighbor_at(i, l))
    }
}

/// Height and size of the levels of a tree of height `h`.
pub proof fn lemma_level_step(h: int, l: int)
    requires
        0 <= l < h - 1,
    ensures
        lsize(h, l) == 2 * lsize(h, l + 1),
        lstart(h, l + 1) == lstart(h, l) + lsize(h, l),
{
    assert(two_pow((h - 1 - l) as nat) == 2 * two_pow((h - 1 - (l + 1)) as nat));
}

pub proof fn lemma_level_ends(h: int)
    requires
        1 <= h,
    ensures
        lstart(h, 0) == 0,
        lsize(h, 0) == two_pow((h - 1) as nat),
        lstart(h, h - 1) == 2 * two_pow((h - 1) as nat) - 2,
        lsize(h, h - 1) == 1,
{
    assert(two_pow(0) == 1);
}

pub proof fn lemma_two_pow_pos(k: nat)
    ensures
        two_pow(k) >= 1,
    decreases k,
{
    if k > 0 {
        lemma_two_pow_pos((k - 1) as nat);
    }
}

pub proof fn lemma_two_pow_mono(a: nat, b: nat)
    requires
        a <= b,
    ensures
        two_pow(a) <= two_pow(b),
    decreases b,
{
    if a < b {
        lemma_two_pow_mono(a, (b - 1) as nat);
        lemma_two_pow_pos((b - 1) as nat);
    }
}

/// Only level `h - 1` holds a single node.
pub proof fn lemma_single_node_level(h: int, l: int)
    requires
        0 <= l <= h - 1,
        lsize(h, l) <= 1,
    ensures
        l == h - 1,
{
    if l < h - 1 {
        lemma_two_pow_pos((h - 2 - l) as nat);
    }
}

pub proof fn lemma_cap_at_most(a: int)
    requires
        a <= 64,
    ensures
        cap_from(a) <= 64,
    decreases 64 - a,
{
    if a < 64 && 2 * two_pow((a - 1) as nat) <= usize::MAX {
        lemma_cap_at_most(a + 1);
    }
}

proof fn lemma_height_from_next(n: int, k: int, h: int)
    requires
        1 <= k <= h + 1,
        h + 1 <= 64,
        forall|j: int| k <= j <= h ==> #[trigger] two_pow((j - 1) as nat) < n,
        n <= two_pow(h as nat),
    ensures
        height_from(n, k) == h + 1,
    decreases h + 1 - k,
{
    if k <= h {
        assert(two_pow((k - 1) as nat) < n);
        lemma_height_from_next(n, k + 1, h);
    }
}

/// One more leaf than a full tree of height `h` needs a tree of height `h + 1`.
pub proof fn lemma_height_after_full(h: int)
    requires
        1 <= h,
        two_pow((h - 1) as nat) + 1 <= max_leafs(),
    ensures
        tree_height(two_pow((h - 1) as nat) + 1int) == h + 1,
        two_pow(h as nat) == 2 * two_pow((h - 1) as nat),
{
    lemma_cap_at_most(1);
    lemma_cap_from_self(1);
    let c = cap_from(1);
    if h - 1 >= c - 1 {
        lemma_two_pow_mono((c - 1) as nat, (h - 1) as nat);
    }
    assert forall|j: int| 1 <= j <= h implies #[trigger] two_pow((j - 1) as nat) < two_pow(
        (h - 1) as nat,
    ) + 1 by {
        lemma_two_pow_mono((j - 1) as nat, (h - 1) as nat);
    }
    assert(two_pow(h as nat) == 2 * two_pow((h - 1) as nat));
    lemma_two_pow_pos((h - 1) as nat);
    lemma_height_from_next(two_pow((h - 1) as nat) + 1int, 1, h);
}

/// A height whose bottom level fits is at most the cap.
pub proof fn lemma_cap_at_least(h: int)
    requires
        1 <= h <= 64,
        forall|k: int| 1 <= k < h ==> 2 * #[trigger] two_pow((k - 1) as nat) <= usize::MAX,
    ensures
        h <= cap_from(1),
{
    lemma_cap_from_ge(1, h);
}

pub proof fn lemma_cap_from_self(a: int)
    ensures
        a <= cap_from(a),
    decreases 64 - a,
{
    if a < 64 && 2 * two_pow((a - 1) as nat) <= usize::MAX {
        lemma_cap_from_self(a + 1);
    }
}

pub proof fn lemma_cap_from_ge(a: int, h: int)
    requires
        1 <= a <= h <= 64,
        forall|k: int| a <= k < h ==> 2 * #[trigger] two_pow((k - 1) as nat) <= usize::MAX,
    ensures
        h <= cap_from(a),
    decreases h - a,
{
    if a < h {
        assert(2 * two_pow((a - 1) as nat) <= usize::MAX);
        lemma_cap_from_ge(a + 1, h);
    } else {
        lemma_cap_from_self(a);
    }
}

/// Levels start in order.
pub proof fn lemma_start_mono(h: int, a: int, b: int)
    requires
        0 <= a <= b <= h - 1,
    ensures
        lstart(h, a) <= lstart(h, b),
{
    lemma_two_pow_mono((h - 1 - b) as nat, (h - 1 - a) as nat);
}

/// Node `m` of level `a` lies within the flat array.
pub proof fn lemma_index_in_range(h: int, a: int, m: int)
    requires
        0 <= a < h,
        0 <= m < lsize(h, a),
    ensures
        0 <= lstart(h, a) + m < 2 * two_pow((h - 1) as nat) - 1,
{
    lemma_start_below_root(h, a);
    lemma_two_pow_pos((h - 1 - a) as nat);
    lemma_two_pow_mono((h - 1 - a) as nat, (h - 1) as nat);
}

/// Every level starts at or below the root's index.
pub proof fn lemma_start_below_root(h: int, l: int)
    requires
        0 <= l <= h - 1,
    ensures
        0 <= lstart(h, l) <= lstart(h, h - 1),
{
    lemma_two_pow_mono(0, (h - 1 - l) as nat);
    lemma_two_pow_mono((h - 1 - l) as nat, (h - 1) as nat);
}

/// The ancestor of leaf `i` stays within its level.
pub proof fn lemma_pos_bound(h: int, i: int, l: int)
    requires
        1 <= h,
        0 <= l <= h - 1,
        0 <= i < two_pow((h - 1) as nat),
    ensures
        0 <= pos(i, l as nat) < lsize(h, l),
    decreases l,
{
    if l == 0 {
        lemma_level_ends(h);
    } else {
        lemma_pos_bound(h, i, l - 1);
        lemma_level_step(h, l - 1);
    }
}

/// Different (level, position) pairs name different flat indices.
pub proof fn lemma_levels_disjoint(h: int, l1: int, m1: int, l2: int, m2: int)
    requires
        0 <= l1 < h,
        0 <= l2 < h,
        0 <= m1 < lsize(h, l1),
        0 <= m2 < lsize(h, l2),
        lstart(h, l1) + m1 == lstart(h, l2) + m2,
    ensures
        l1 == l2,
        m1 == m2,
{
    if l1 < l2 {
        lemma_level_step(h, l1);
        lemma_two_pow_mono((h - 1 - l2) as nat, (h - 1 - (l1 + 1)) as nat);
    } else if l2 < l1 {
        lemma_level_step(h, l2);
        lemma_two_pow_mono((h - 1 - l1) as nat, (h - 1 - (l2 + 1)) as nat);
    }
}

#[derive(Debug)]
pub struct MerkleSumTree {
    leafs: Vec<Leaf>,
    nodes: Vec<Node>,
    height: usize,
    zero_index: Vec<usize>,
}

impl View for MerkleSumTree {
    type V = TreeModel;

    closed spec fn view(&self) -> TreeModel {
        TreeModel {
            leafs: self.leafs@,
            nodes: self.nodes@,
            height: self.height as int,
            zero_index: self.zero_index@,
        }
    }
}

impl MerkleSumTree {
    pub open spec fn wf(&self) -> bool {
        self@.wf()
    }

    /// Builds a tree from `leafs`, padded with zero-leaves to a power of two.
    pub fn new(leafs: Vec<Leaf>) -> (r: Result<MerkleSumTree, MerkleError>)
        ensures
            leafs@.len() == 0 ==> r is Err && r->Err_0 is InvalidTree,
            leafs@.len() > max_leafs() ==> r is Err && r->Err_0 is InvalidTree
                && r->Err_0->InvalidTree_0@ == "Tree too large"@,
            0 < leafs@.len() <= max_leafs() ==> (r is Ok <==> buildable(
                padded_nodes(leafs@, two_pow((tree_height(leafs@.len() as int) - 1) as nat) as int),
            )),
            0 < leafs@.len() <= max_leafs() && r is Err ==> r == Err::<MerkleSumTree, MerkleError>(
                MerkleError::OverflowError,
            ),
            r is Ok ==> r->Ok_0.wf() && r->Ok_0@.height == tree_height(leafs@.len() as int)
                && is_padding_of(r->Ok_0@.leafs, leafs@),
    {
        Self::create_tree(leafs)
    }

    #[verifier::loop_isolation(false)]
    #[verifier::rlimit(40)]
    fn create_tree(leafs: Vec<Leaf>) -> (r: Result<MerkleSumTree, MerkleError>)
        ensures
            leafs@.len() == 0 ==> r is Err && r->Err_0 is InvalidTree,
            leafs@.len() > max_leafs() ==> r is Err && r->Err_0 is InvalidTree
                && r->Err_0->InvalidTree_0@ == "Tree too large"@,
            0 < leafs@.len() <= max_leafs() ==> (r is Ok <==> buildable(
                padded_nodes(leafs@, two_pow((tree_height(leafs@.len() as int) - 1) as nat) as int),
            )),
            0 < leafs@.len() <= max_leafs() && r is Err ==> r == Err::<MerkleSumTree, MerkleError>(
                MerkleError::OverflowError,
            ),
            r is Ok ==> r->Ok_0.wf() && r->Ok_0@.height == tree_height(leafs@.len() as int)
                && is_padding_of(r->Ok_0@.leafs, leafs@),
    {
        if leafs.len() == 0 {
            return Err(MerkleError::InvalidTree("Cannot create tree with no leaves".to_owned()));
        }
        let ghost input = leafs@;
        let n0 = leafs.len();
        let mut leafs = leafs;
        let (height, padded_zeros) = match Self::fill_leafs(&mut leafs) {
            Ok(hz) => hz,
            Err(e) => return Err(e),
        };
        let ghost h = height as int;
        let n = leafs.len();
        let mut nodes: Vec<Node> = Vec::new();
        let mut level: Vec<Node> = Vec::new();
        let zero_index = Self::collect_zero_index(&leafs, n0, padded_zeros);
        let mut i: usize = 0;
        while i < n
            invariant
                n == leafs@.len(),
                0 <= i <= n,
                nodes@.len() == i,
                level@ == nodes@,
                forall|k: int| 0 <= k < i ==> nodes@[k] == (#[trigger] leafs@[k]).node(),
                forall|k: int| 0 <= k < i ==> (#[trigger] leafs@[k]).wf(),
            decreases n - i,
        {
            let node = leafs[i].get_node();
            nodes.push(node);
            level.push(node);
            i = i + 1;
        }
        proof {
            assert forall|k: int| 0 <= k < n implies level@[k] == #[trigger] padded_nodes(
                input,
                n as int,
            )[k] by {
                if k < input.len() {
                    assert(leafs@.subrange(0, input.len() as int)[k] == leafs@[k]);
                } else {
                    Leaf::lemma_zero_leaf_node(leafs@[k]);
                }
            }
            assert(level@ =~= padded_nodes(input, n as int));
            lemma_level_ends(h);
        }
        let ms = MimcSponge::default();
        let mut l: usize = 0;
        while level.len() > 1
            invariant
                n == leafs@.len(),
                n == two_pow((h - 1) as nat),
                1 <= h <= 64,
                0 < input.len() <= max_leafs(),
                0 <= l <= h - 1,
                0 <= lstart(h, l as int),
                lstart(h, 0) == 0,
                lstart(h, h - 1) == 2 * two_pow((h - 1) as nat) - 2,
                lsize(h, h - 1) == 1,
                lsize(h, 0) == n,
                nodes@.len() == lstart(h, l as int) + lsize(h, l as int),
                level@ == nodes@.subrange(lstart(h, l as int), lstart(h, l as int) + lsize(h, l as int)),
                forall|k: int| 0 <= k < n ==> nodes@[k] == (#[trigger] leafs@[k]).node(),
                forall|a: int, m: int|
                    0 <= a < l && 0 <= m < lsize(h, a + 1) ==> #[trigger] parent_rel(nodes@, h, a, m),
                buildable(level@) == buildable(padded_nodes(input, n as int)),
            decreases h - l,
        {
            proof {
                assert(l < h - 1);
                lemma_start_below_root(h, l as int);
                lemma_level_step(h, l as int);
                lemma_start_below_root(h, l + 1);
            }
            let ghost base = nodes@;
            let next = match Self::parents_of(&ms, &level) {
                Ok(v) => v,
                Err(e) => return Err(e),
            };
            let mut k: usize = 0;
            while k < next.len()
                invariant
                    0 <= k <= next@.len(),
                    nodes@ == base + next@.subrange(0, k as int),
                decreases next@.len() - k,
            {
                nodes.push(next[k]);
                proof {
                    assert(nodes@ =~= base + next@.subrange(0, k + 1));
                }
                k = k + 1;
            }
            proof {
                assert(next@.subrange(0, next@.len() as int) =~= next@);
                assert(nodes@ == base + next@);
            }
            proof {
                assert(next@ =~= next_level(level@));
                assert forall|jj: int| 0 <= jj < level@.len() / 2 implies #[trigger] sum_fits(
                    level@[2 * jj],
                    level@[2 * jj + 1],
                ) by {
                    assert(next@[jj] == parent_node(level@[2 * jj], level@[2 * jj + 1]));
                }
                assert(pairs_fit(level@));
                assert forall|a: int, m: int|
                    0 <= a < l + 1 && 0 <= m < lsize(h, a + 1) implies #[trigger] parent_rel(
                        nodes@,
                        h,
                        a,
                        m,
                    ) by {
                    if a < l {
                        assert(parent_rel(base, h, a, m));
                        lemma_level_step(h, a);
                        lemma_level_step(h, a + 1);
                        lemma_start_mono(h, a + 2, l + 1);
                        lemma_start_mono(h, 0, a);
                    } else {
                        assert(level@[2 * m] == nodes@[lstart(h, a) + 2 * m]);
                        assert(level@[2 * m + 1] == nodes@[lstart(h, a) + 2 * m + 1]);
                        assert(next@[m] == nodes@[lstart(h, a + 1) + m]);
                    }
                }
                assert forall|k: int| 0 <= k < n implies nodes@[k] == (#[trigger] leafs@[k]).node() by {
                    lemma_start_mono(h, 1, l + 1);
                    lemma_level_step(h, 0);
                    assert(base[k] == nodes@[k]);
                }
                assert(nodes@.subrange(lstart(h, l + 1), lstart(h, l + 1) + lsize(h, l + 1)) =~= next@);
                lemma_start_below_root(h, l + 1);
            }
            level = next;
            l = l + 1;
        }
        proof {
            lemma_single_node_level(h, l as int);
        }
        let tree = MerkleSumTree { leafs, nodes, height, zero_index };
        proof {
            assert(tree@.wf()) by {
                assert forall|a: int, m: int|
                    0 <= a < h - 1 && 0 <= m < lsize(h, a + 1) implies #[trigger] tree@.parent_holds(a, m) by {
                    assert(parent_rel(nodes@, h, a, m));
                }
            }
        }
        Ok(tree)
    }

    /// The level above `level`: the parent of each pair of neighbours; an overflow in any
    /// pair stops it.
    fn parents_of(ms: &MimcSponge, level: &Vec<Node>) -> (r: Result<Vec<Node>, MerkleError>)
        requires
            ms.wf(),
            level@.len() % 2 == 0,
        ensures
            r is Ok <==> pairs_fit(level@),
            r is Err ==> r == Err::<Vec<Node>, MerkleError>(MerkleError::OverflowError),
            r is Ok ==> r->Ok_0@ == next_level(level@),
    {
        let mut next: Vec<Node> = Vec::new();
        let mut j: usize = 0;
        while j < level.len()
            invariant
                ms.wf(),
                level@.len() % 2 == 0,
                j % 2 == 0,
                0 <= j <= level@.len(),
                next@.len() == j / 2,
                forall|m: int|
                    0 <= m < j / 2 ==> #[trigger] next@[m] == parent_node(level@[2 * m], level@[2 * m + 1])
                        && sum_fits(level@[2 * m], level@[2 * m + 1]),
            decreases level@.len() - j,
        {
            let ghost next0 = next@;
            match Self::parent_with(ms, level[j], level[j + 1]) {
                Ok(p) => {
                    next.push(p);
                    proof {
                        let jj = j as int / 2;
                        assert(2 * jj == j);
                        assert forall|m: int| 0 <= m < jj + 1 implies #[trigger] next@[m]
                            == parent_node(level@[2 * m], level@[2 * m + 1]) && sum_fits(
                            level@[2 * m],
                            level@[2 * m + 1],
                        ) by {
                            if m < jj {
                                assert(next@[m] == next0[m]);
                            }
                        }
                    }
                },
                Err(e) => {
                    proof {
                        let jj = j as int / 2;
                        assert(2 * jj == j);
                        assert(!sum_fits(level@[2 * jj], level@[2 * jj + 1]));
                    }
                    return Err(e);
                },
            }
            j = j + 2;
        }
        proof {
            assert(next@ =~= next_level(level@));
            assert forall|jj: int| 0 <= jj < level@.len() / 2 implies #[trigger] sum_fits(
                level@[2 * jj],
                level@[2 * jj + 1],
            ) by {
                assert(next@[jj] == parent_node(level@[2 * jj], level@[2 * jj + 1]));
            }
        }
        Ok(next)
    }

    /// The zero slots of `leafs`, in increasing order: those among the first `n0` found by a
    /// scan, then the padded slots `n0 ..` as `fill_leafs` recorded them.
    fn collect_zero_index(leafs: &Vec<Leaf>, n0: usize, padded_zeros: Vec<usize>) -> (zi: Vec<
        usize,
    >)
        requires
            n0 <= leafs@.len(),
            padded_zeros@ == Seq::new((leafs@.len() - n0) as nat, |k: int| (n0 + k) as usize),
            forall|j: int| n0 <= j < leafs@.len() ==> (#[trigger] leafs@[j]).is_zero(),
        ensures
            forall|a: int, b: int| 0 <= a < b < zi@.len() ==> zi@[a] < zi@[b],
            forall|k: int|
                0 <= k < zi@.len() ==> #[trigger] zi@[k] < leafs@.len() && leafs@[zi@[k] as int].is_zero(),
            forall|k: int|
                0 <= k < leafs@.len() && (#[trigger] leafs@[k]).is_zero() ==> zi@.contains(k as usize),
    {
        let n = leafs.len();
        let mut zero_index: Vec<usize> = Vec::new();
        let mut i: usize = 0;
        while i < n0
            invariant
                n == leafs@.len(),
                0 <= i <= n0,
                n0 <= n,
                forall|a: int, b: int| 0 <= a < b < zero_index@.len() ==> zero_index@[a] < zero_index@[b],
                forall|k: int|
                    0 <= k < zero_index@.len() ==> #[trigger] zero_index@[k] < i
                        && leafs@[zero_index@[k] as int].is_zero(),
                forall|k: int|
                    0 <= k < i && (#[trigger] leafs@[k]).is_zero() ==> zero_index@.contains(k as usize),
            decreases n0 - i,
        {
            let ghost zi0 = zero_index@;
            if leafs[i].is_none() {
                zero_index.push(i);
            }
            proof {
                assert forall|k: int| 0 <= k < i + 1 && (#[trigger] leafs@[k]).is_zero()
                    implies zero_index@.contains(k as usize) by {
                    if k == i {
                        assert(zero_index@.last() == i);
                    } else {
                        let idx = choose|idx: int| 0 <= idx < zi0.len() && zi0[idx] == k as usize;
                        assert(zero_index@[idx] == k as usize);
                    }
                }
            }
            i = i + 1;
        }
        let ghost user_zeros = zero_index@;
        let user_count = zero_index.len();
        let mut j: usize = 0;
        while j < padded_zeros.len()
            invariant
                padded_zeros@ == Seq::new((n - n0) as nat, |k: int| (n0 + k) as usize),
                n0 <= n,
                n <= usize::MAX,
                user_count == user_zeros.len(),
                0 <= j <= padded_zeros@.len(),
                zero_index@.len() == user_count + j,
                zero_index@.subrange(0, user_count as int) == user_zeros,
                forall|k: int| 0 <= k < user_count ==> #[trigger] user_zeros[k] < n0,
                forall|a: int, b: int| 0 <= a < b < user_count ==> user_zeros[a] < user_zeros[b],
                forall|k: int|
                    user_count <= k < zero_index@.len() ==> #[trigger] zero_index@[k] == n0 + (k
                        - user_count),
            decreases padded_zeros@.len() - j,
        {
            let ghost prev = zero_index@;
            zero_index.push(padded_zeros[j]);
            proof {
                assert(zero_index@.subrange(0, user_count as int) =~= prev.subrange(0, user_count as int));
            }
            j = j + 1;
        }
        proof {
            let zi = zero_index@;
            assert forall|a: int, b: int| 0 <= a < b < zi.len() implies zi[a] < zi[b] by {
                if b < user_count {
                    assert(zi[a] == user_zeros[a] && zi[b] == user_zeros[b]);
                } else if a < user_count {
                    assert(zi[a] == user_zeros[a]);
                }
            }
            assert forall|k: int| 0 <= k < zi.len() implies #[trigger] zi[k] < leafs@.len()
                && leafs@[zi[k] as int].is_zero() by {
                if k < user_count {
                    assert(zi[k] == user_zeros[k]);
                }
            }
            assert forall|k: int| 0 <= k < leafs@.len() && (#[trigger] leafs@[k]).is_zero()
                implies zi.contains(k as usize) by {
                if k < n0 {
                    let idx = choose|idx: int| 0 <= idx < user_zeros.len() && user_zeros[idx] == k as usize;
                    assert(zi[idx] == user_zeros[idx]);
                } else {
                    assert(zi[user_count + (k - n0)] == k);
                }
            }
        }
        zero_index
    }

    /// Pads `leafs` with zero-leaves up to the next power of two; returns the height.
    fn fill_leafs(leafs: &mut Vec<Leaf>) -> (r: Result<(usize, Vec<usize>), MerkleError>)
        ensures
            old(leafs)@.len() == 0 ==> r is Err && r->Err_0 is InvalidLeaf,
            old(leafs)@.len() > max_leafs() ==> r is Err && r->Err_0 is InvalidTree
                && r->Err_0->InvalidTree_0@ == "Tree too large"@,
            0 < old(leafs)@.len() <= max_leafs() ==> r is Ok,
            r is Err ==> final(leafs)@ == old(leafs)@,
            r is Ok ==> 0 < old(leafs)@.len() <= max_leafs(),
            r is Ok ==> r->Ok_0.0 == tree_height(old(leafs)@.len() as int) && 1 <= r->Ok_0.0 <= 64
                && is_padding_of(final(leafs)@, old(leafs)@),
            r is Ok ==> r->Ok_0.1@ == Seq::new(
                (final(leafs)@.len() - old(leafs)@.len()) as nat,
                |k: int| (old(leafs)@.len() + k) as usize,
            ),
    {
        if leafs.len() == 0 {
            return Err(MerkleError::InvalidLeaf("Cannot process empty leaf vector".to_owned()));
        }
        let ghost n0 = leafs@.len() as int;
        let mut power: usize = 1;
        let mut height: usize = 1;
        while power < leafs.len()
            invariant
                n0 == leafs@.len(),
                1 <= height <= 64,
                power == two_pow((height - 1) as nat),
                height_from(n0, height as int) == tree_height(n0),
                cap_from(height as int) == cap_from(1),
                forall|k: int| 1 <= k < height ==> 2 * #[trigger] two_pow((k - 1) as nat) <= usize::MAX,
            decreases 64 - height,
        {
            if height == 64 || power > usize::MAX / 2 {
                proof {
                    assert(cap_from(height as int) == height);
                    assert(two_pow((height - 1) as nat) < n0);
                }
                return Err(MerkleError::InvalidTree("Tree too large".to_owned()));
            }
            power = power * 2;
            height = height + 1;
        }
        proof {
            assert(height_from(n0, height as int) == height);
            lemma_cap_at_least(height as int);
            lemma_two_pow_mono((height - 1) as nat, (cap_from(1) - 1) as nat);
        }
        let ghost pre = leafs@;
        let empty_leaf = Leaf::new("0".to_owned(), 0);
        proof {
            reveal_strlit("0");
            assert(empty_leaf.id() =~= crate::node::zero_id());
        }
        let fill_count = power - leafs.len();
        let mut zero_index: Vec<usize> = Vec::new();
        let mut index = leafs.len();
        let mut k: usize = 0;
        while k < fill_count
            invariant
                fill_count == power - pre.len(),
                power <= usize::MAX,
                leafs@.len() == pre.len() + k,
                index == pre.len() + k,
                zero_index@ == Seq::new(k as nat, |j: int| (pre.len() + j) as usize),
                0 <= k <= fill_count,
                leafs@.subrange(0, pre.len() as int) == pre,
                empty_leaf.is_zero(),
                empty_leaf.wf(),
                forall|j: int| pre.len() <= j < leafs@.len() ==> (#[trigger] leafs@[j]).is_zero() && leafs@[j].wf(),
            decreases fill_count - k,
        {
            let ghost prev = leafs@;
            zero_index.push(index);
            leafs.push(empty_leaf.clone());
            proof {
                assert(leafs@.subrange(0, pre.len() as int) =~= prev.subrange(0, pre.len() as int));
                assert(zero_index@ =~= Seq::new((k + 1) as nat, |j: int| (pre.len() + j) as usize));
            }
            index = index + 1;
            k = k + 1;
        }
        Ok((height, zero_index))
    }

    /// Puts `leaf` in slot `index` and recomputes the nodes above it. On an error the tree is
    /// left as it was.
    #[verifier::rlimit(40)]
    pub fn set_leaf(&mut self, leaf: Leaf, index: usize) -> (r: Result<(), MerkleError>)
        requires
            old(self).wf(),
        ensures
            final(self).wf(),
            index >= old(self)@.leafs.len() ==> r == Err::<(), MerkleError>(
                MerkleError::IndexOutOfBounds { index, max: (old(self)@.leafs.len() - 1) as usize },
            ),
            index < old(self)@.leafs.len() ==> (r is Ok <==> fold_path(
                leaf.node(),
                old(self)@.proof_path(index as int),
            ) is Ok),
            index < old(self)@.leafs.len() && r is Err ==> r == Err::<(), MerkleError>(
                MerkleError::OverflowError,
            ),
            r is Err ==> final(self)@ == old(self)@,
            r is Ok ==> final(self)@.leafs == old(self)@.leafs.update(index as int, leaf)
                && final(self)@.height == old(self)@.height && Ok::<Node, MerkleError>(
                final(self)@.root(),
            ) == fold_path(leaf.node(), old(self)@.proof_path(index as int)),
            r is Ok ==> final(self)@.proof_path(index as int) == old(self)@.proof_path(index as int),
            r is Ok && leaf.is_zero() == old(self)@.leafs[index as int].is_zero()
                ==> final(self)@.zero_index == old(self)@.zero_index,
            r is Ok && leaf.is_zero() && !old(self)@.leafs[index as int].is_zero()
                ==> exists|p: int| 0 <= p <= old(self)@.zero_index.len()
                    && final(self)@.zero_index == old(self)@.zero_index.insert(p, index),
            r is Ok && !leaf.is_zero() && old(self)@.leafs[index as int].is_zero()
                ==> exists|p: int| 0 <= p < old(self)@.zero_index.len()
                    && old(self)@.zero_index[p] == index
                    && final(self)@.zero_index == old(self)@.zero_index.remove(p),
    {
        let n = self.leafs.len();
        if index >= n {
            return Err(MerkleError::IndexOutOfBounds { index, max: n - 1 });
        }
        proof {
            use_type_invariant(&leaf);
        }
        let ghost t = self@;
        let ghost h = t.height;
        let path_nodes = match self.path_to_root(leaf.get_node(), index) {
            Ok(v) => v,
            Err(e) => return Err(e),
        };
        proof {
            assert(self@.zero_index_ok());
            assert(self.zero_index@ == self@.zero_index);
        }
        let old_zero = self.leafs[index].is_none();
        let new_zero = leaf.is_none();
        if new_zero && !old_zero {
            let p = lower_bound(&self.zero_index, index);
            proof {
                lemma_zero_insert(t, index as int, p as int);
            }
            self.zero_index.insert(p, index);
            proof {
                assert(self@.zero_index == t.zero_index.insert(p as int, index));
            }
        } else if !new_zero && old_zero {
            let p = lower_bound(&self.zero_index, index);
            proof {
                assert(t.zero_index.contains(index));
                let k = choose|k: int| 0 <= k < t.zero_index.len() && t.zero_index[k] == index;
                assert(k >= p);
                if k > p {
                    assert(t.zero_index[p as int] < t.zero_index[k]);
                }
                lemma_zero_remove(t, index as int, p as int);
            }
            self.zero_index.remove(p);
            proof {
                assert(self@.zero_index == t.zero_index.remove(p as int));
            }
        }
        let ghost zi1 = self.zero_index@;
        let ghost lf = leaf;
        self.leafs[index] = leaf;
        proof {
            let leafs1 = t.leafs.update(index as int, lf);
            assert(self@.leafs == leafs1);
            lemma_zero_index_update(t, index as int, lf, zi1);
            assert(self@ == TreeModel { leafs: t.leafs.update(index as int, lf), zero_index: zi1, ..t });
            assert(self@.zero_index_ok());
        }
        self.update_path(&path_nodes, index, Ghost(t), Ghost(lf));
        Ok(())
    }

    /// The nodes from slot `index` up to the root when the slot holds `node` and every
    /// sibling stays: entry `k` is the fold of `node` with the first `k` neighbours of the
    /// slot's proof path.
    fn path_to_root(&self, node: Node, index: usize) -> (r: Result<Vec<Node>, MerkleError>)
        requires
            self.wf(),
            index < self@.leafs.len(),
        ensures
            r is Ok <==> fold_path(node, self@.proof_path(index as int)) is Ok,
            r is Err ==> r == Err::<Vec<Node>, MerkleError>(MerkleError::OverflowError),
            r is Ok ==> r->Ok_0@.len() == self@.height,
            r is Ok ==> forall|k: int|
                0 <= k < self@.height ==> fold_path(
                    node,
                    #[trigger] self@.proof_path(index as int).subrange(0, k),
                ) == Ok::<Node, MerkleError>(r->Ok_0@[k]),
    {
        let n = self.leafs.len();
        let ghost t = self@;
        let ghost h = t.height;
        let ghost pp = t.proof_path(index as int);
        let mut path_nodes: Vec<Node> = Vec::new();
        let mut cur = node;
        path_nodes.push(cur);
        let mut level_size: usize = n;
        let mut level_index: usize = index;
        let mut level_start: usize = 0;
        let ms = MimcSponge::default();
        let mut l: usize = 0;
        let nn = self.nodes.len();
        proof {
            lemma_level_ends(h);
            assert(pp.subrange(0, 0) =~= Seq::<Neighbor>::empty());
        }
        while l + 1 < self.height
            invariant
                ms.wf(),
                self.wf(),
                t == self@,
                h == t.height,
                n == t.leafs.len(),
                nn == t.nodes.len(),
                pp == t.proof_path(index as int),
                index < n,
                0 <= l < h,
                level_start == lstart(h, l as int),
                level_size == lsize(h, l as int),
                level_index == pos(index as int, l as nat),
                path_nodes@.len() == l + 1,
                cur == path_nodes@[l as int],
                forall|k: int|
                    0 <= k <= l ==> fold_path(node, #[trigger] pp.subrange(0, k)) == Ok::<
                        Node,
                        MerkleError,
                    >(path_nodes@[k]),
            decreases h - l,
        {
            proof {
                lemma_pos_bound(h, index as int, l as int);
                lemma_level_step(h, l as int);
                lemma_start_below_root(h, l + 1);
                assert(pp.subrange(0, l + 1).drop_last() =~= pp.subrange(0, l as int));
            }
            let current_index = level_start + level_index;
            let next = if level_index % 2 == 0 {
                Self::parent_with(&ms, cur, self.nodes[current_index + 1])
            } else {
                Self::parent_with(&ms, self.nodes[current_index - 1], cur)
            };
            match next {
                Ok(p) => cur = p,
                Err(e) => {
                    proof {
                        lemma_fold_err_extends(node, pp, l + 1);
                    }
                    return Err(e);
                },
            }
            path_nodes.push(cur);
            level_start = level_start + level_size;
            level_index = level_index / 2;
            level_size = level_size / 2;
            l = l + 1;
        }
        proof {
            assert(pp.subrange(0, h - 1) =~= pp);
        }
        Ok(path_nodes)
    }

    /// Writes the recomputed ancestors of slot `index`: `path_nodes[l]` is the fold of the
    /// slot's new node with its first `l` siblings, and it goes over the ancestor on level `l`.
    /// `before` is the tree as it was before slot `index` took `lf`; afterwards every parent is
    /// again the parent of its two children.
    fn update_path(
        &mut self,
        path_nodes: &Vec<Node>,
        index: usize,
        Ghost(before): Ghost<TreeModel>,
        Ghost(lf): Ghost<Leaf>,
    )
        requires
            before.wf(),
            lf.wf(),
            index < before.leafs.len(),
            old(self)@.leafs == before.leafs.update(index as int, lf),
            old(self)@.nodes == before.nodes,
            old(self)@.height == before.height,
            old(self)@.zero_index_ok(),
            path_nodes@.len() == before.height,
            forall|k: int|
                0 <= k < before.height ==> fold_path(
                    lf.node(),
                    #[trigger] before.proof_path(index as int).subrange(0, k),
                ) == Ok::<Node, MerkleError>(path_nodes@[k]),
        ensures
            final(self).wf(),
            forall|l: int, m: int|
                0 <= l < final(self)@.height - 1 && 0 <= m < lsize(final(self)@.height, l + 1)
                    ==> #[trigger] final(self)@.parent_holds(l, m),
            final(self)@.leafs == old(self)@.leafs,
            final(self)@.height == old(self)@.height,
            final(self)@.zero_index == old(self)@.zero_index,
            Ok::<Node, MerkleError>(final(self)@.root()) == fold_path(
                lf.node(),
                before.proof_path(index as int),
            ),
            final(self)@.proof_path(index as int) == before.proof_path(index as int),
            forall|a: int, m: int|
                0 <= a < before.height && 0 <= m < lsize(before.height, a) && m != pos(
                    index as int,
                    a as nat,
                ) ==> #[trigger] final(self)@.at(a, m) == before.at(a, m),
    {
        let n = self.leafs.len();
        let nn = self.nodes.len();
        let ghost t = self@;
        let ghost h = t.height;
        let mut level_start: usize = 0;
        let mut level_index: usize = index;
        let mut level_size: usize = n;
        let mut l: usize = 0;
        while l < self.height
            invariant
                self@.leafs == t.leafs,
                self@.height == h,
                self@.nodes.len() == t.nodes.len(),
                self@.zero_index == t.zero_index,
                n == t.leafs.len(),
                n == two_pow((h - 1) as nat),
                1 <= h <= 64,
                nn == t.nodes.len(),
                nn == 2 * n - 1,
                index < n,
                0 <= l <= h,
                path_nodes@.len() == h,
                l < h ==> level_start == lstart(h, l as int),
                l < h ==> level_size == lsize(h, l as int),
                level_index == pos(index as int, l as nat),
                forall|a: int, m: int|
                    0 <= a < h && 0 <= m < lsize(h, a) ==> #[trigger] self@.at(a, m) == if a < l && m
                        == pos(index as int, a as nat) {
                        path_nodes@[a]
                    } else {
                        t.at(a, m)
                    },
            decreases h - l,
        {
            proof {
                lemma_pos_bound(h, index as int, l as int);
                lemma_start_below_root(h, l as int);
                lemma_level_ends(h);
            }
            let current_index = level_start + level_index;
            let ghost before = self@;
            self.nodes[current_index] = path_nodes[l];
            proof {
                assert forall|a: int, m: int|
                    0 <= a < h && 0 <= m < lsize(h, a) implies #[trigger] self@.at(a, m) == if a < l + 1
                        && m == pos(index as int, a as nat) {
                        path_nodes@[a]
                    } else {
                        t.at(a, m)
                    } by {
                    lemma_index_in_range(h, a, m);
                    if lstart(h, a) + m == current_index {
                        lemma_levels_disjoint(h, a, m, l as int, pos(index as int, l as nat));
                    } else {
                        assert(self@.at(a, m) == before.at(a, m));
                    }
                }
            }
            if l + 1 < self.height {
                proof {
                    lemma_level_step(h, l as int);
                    lemma_start_below_root(h, l + 1);
                }
                level_start = level_start + level_size;
                level_size = level_size / 2;
            }
            level_index = level_index / 2;
            l = l + 1;
        }
        proof {
            assert(self@.zero_index_ok());
            assert forall|a: int, m: int|
                0 <= a < h && 0 <= m < lsize(h, a) implies #[trigger] self@.at(a, m) == if m == pos(
                    index as int,
                    a as nat,
                ) {
                    path_nodes@[a]
                } else {
                    before.at(a, m)
                } by {
                assert(t.at(a, m) == before.at(a, m));
            }
            lemma_path_written(before, self@, index as int, lf, path_nodes@);
        }
    }

    /// Appends `leaf`: into the first zero slot if there is one, else after the last leaf,
    /// rebuilding the tree at twice the size. Returns the slot. On an error the tree is left
    /// as it was.
    pub fn push(&mut self, leaf: Leaf) -> (r: Result<usize, MerkleError>)
        requires
            old(self).wf(),
        ensures
            final(self).wf(),
            r is Err ==> final(self)@ == old(self)@,
            old(self)@.zero_index.len() > 0 ==> ({
                let z = old(self)@.zero_index[0];
                &&& r is Ok <==> fold_path(leaf.node(), old(self)@.proof_path(z as int)) is Ok
                &&& r is Err ==> r == Err::<usize, MerkleError>(MerkleError::OverflowError)
                &&& r is Ok ==> r == Ok::<usize, MerkleError>(z) && final(self)@.leafs == old(
                    self,
                )@.leafs.update(z as int, leaf) && final(self)@.height == old(self)@.height
                &&& r is Ok ==> final(self)@.proof_path(z as int) == old(self)@.proof_path(z as int)
            }),
            old(self)@.zero_index.len() == 0 ==> ({
                let grown = old(self)@.leafs.push(leaf);
                &&& grown.len() > max_leafs() ==> r is Err && r->Err_0 is InvalidTree
                &&& grown.len() <= max_leafs() ==> (r is Ok <==> buildable(
                    padded_nodes(grown, two_pow((tree_height(grown.len() as int) - 1) as nat) as int),
                ))
                &&& grown.len() <= max_leafs() && r is Err ==> r == Err::<usize, MerkleError>(
                    MerkleError::OverflowError,
                )
                &&& r is Ok ==> r == Ok::<usize, MerkleError>(old(self)@.leafs.len() as usize)
                    && final(self)@.height == tree_height(grown.len() as int) && is_padding_of(
                    final(self)@.leafs,
                    grown,
                )
                &&& r is Ok ==> final(self)@.leafs.len() == 2 * old(self)@.leafs.len()
                    && final(self)@.height == old(self)@.height + 1
            }),
    {
        if self.zero_index.len() == 0 {
            let index_value = self.leafs.len();
            let mut grown: Vec<Leaf> = Vec::new();
            let mut i: usize = 0;
            while i < self.leafs.len()
                invariant
                    0 <= i <= self.leafs@.len(),
                    grown@ == self.leafs@.subrange(0, i as int),
                decreases self.leafs@.len() - i,
            {
                grown.push(self.leafs[i].clone());
                proof {
                    assert(grown@ =~= self.leafs@.subrange(0, i + 1));
                }
                i = i + 1;
            }
            grown.push(leaf);
            proof {
                assert(grown@ =~= self@.leafs.push(leaf));
            }
            let ghost h0 = self@.height;
            match Self::create_tree(grown) {
                Ok(tree) => {
                    proof {
                        lemma_height_after_full(h0);
                    }
                    *self = tree;
                    Ok(index_value)
                },
                Err(e) => Err(e),
            }
        } else {
            let index_value = self.zero_index[0];
            proof {
                assert(self@.zero_index.len() > 0);
                assert(self@.zero_index[0] < self@.leafs.len());
            }
            match self.set_leaf(leaf, index_value) {
                Ok(()) => Ok(index_value),
                Err(e) => Err(e),
            }
        }
    }

    /// Puts the zero-leaf in slot `index`; the slot is not reclaimed. On an error the tree is
    /// left as it was.
    pub fn remove(&mut self, index: usize) -> (r: Result<(), MerkleError>)
        requires
            old(self).wf(),
        ensures
            final(self).wf(),
            index >= old(self)@.leafs.len() ==> r == Err::<(), MerkleError>(
                MerkleError::IndexOutOfBounds { index, max: (old(self)@.leafs.len() - 1) as usize },
            ),
            index < old(self)@.leafs.len() ==> (r is Ok <==> fold_path(
                zero_node(),
                old(self)@.proof_path(index as int),
            ) is Ok),
            index < old(self)@.leafs.len() && r is Err ==> r == Err::<(), MerkleError>(
                MerkleError::OverflowError,
            ),
            r is Err ==> final(self)@ == old(self)@,
            r is Ok ==> final(self)@.leafs[index as int].is_zero() && final(self)@.leafs == old(
                self,
            )@.leafs.update(index as int, final(self)@.leafs[index as int])
                && final(self)@.height == old(self)@.height && Ok::<Node, MerkleError>(
                final(self)@.root(),
            ) == fold_path(zero_node(), old(self)@.proof_path(index as int)),
            r is Ok ==> final(self)@.proof_path(index as int) == old(self)@.proof_path(index as int),
    {
        if index >= self.leafs.len() {
            return Err(MerkleError::IndexOutOfBounds { index, max: self.leafs.len() - 1 });
        }
        let leaf = Leaf::new("0".to_owned(), 0);
        proof {
            reveal_strlit("0");
            assert(leaf.id() =~= crate::node::zero_id());
            Leaf::lemma_zero_leaf_node(leaf);
        }
        self.set_leaf(leaf, index)
    }

    /// Combines two children: the hash is the sponge on `[hL, vL, hR, vR]` (values lifted
    /// modulo `p`), the value is the checked sum.
    pub fn build_parent(child_1: Node, child_2: Node) -> (r: Result<Node, MerkleError>)
        ensures
            r == parent_spec(child_1, child_2),
    {
        let ms = MimcSponge::default();
        Self::parent_with(&ms, child_1, child_2)
    }

    /// `build_parent` with a hasher whose constant table the caller built once for many calls.
    fn parent_with(ms: &MimcSponge, child_1: Node, child_2: Node) -> (r: Result<Node, MerkleError>)
        requires
            ms.wf(),
        ensures
            r == parent_spec(child_1, child_2),
    {
        let sum = match child_1.value.checked_add(child_2.value) {
            Some(s) => s,
            None => return Err(MerkleError::OverflowError),
        };
        let arr = vec![
            child_1.hash,
            Fr::from_i32(child_1.value),
            child_2.hash,
            Fr::from_i32(child_2.value),
        ];
        let k = Fr::zero();
        let out = ms.multi_hash(arr.as_slice(), k, 1);
        let hash = out[0];
        proof {
            assert(values(arr@) =~= seq![
                child_1.hash.value(),
                crate::field::lift_i32(child_1.value),
                child_2.hash.value(),
                crate::field::lift_i32(child_2.value),
            ]);
            assert(hash.value() == parent_hash(child_1, child_2));
            lemma_fr_of_value(hash);
        }
        Ok(Node::new(hash, sum))
    }

    pub fn get_root_hash(&self) -> (r: Result<Fr, MerkleError>)
        requires
            self.wf(),
        ensures
            r == Ok::<Fr, MerkleError>(self@.root().hash),
    {
        let n = self.nodes.len();
        if n == 0 {
            return Err(MerkleError::EmptyTree);
        }
        Ok(self.nodes[n - 1].hash)
    }

    pub fn get_root_sum(&self) -> (r: Result<i32, MerkleError>)
        requires
            self.wf(),
        ensures
            r == Ok::<i32, MerkleError>(self@.root().value),
    {
        let n = self.nodes.len();
        if n == 0 {
            return Err(MerkleError::EmptyTree);
        }
        Ok(self.nodes[n - 1].value)
    }

    pub fn get_root(&self) -> (r: Result<Node, MerkleError>)
        requires
            self.wf(),
        ensures
            r == Ok::<Node, MerkleError>(self@.root()),
    {
        let n = self.nodes.len();
        if n == 0 {
            return Err(MerkleError::EmptyTree);
        }
        self.get_node(n - 1)
    }

    pub fn get_nodes(&self) -> (r: &[Node])
        ensures
            r@ == self@.nodes,
    {
        self.nodes.as_slice()
    }

    pub fn get_leafs(&self) -> (r: &[Leaf])
        ensures
            r@ == self@.leafs,
    {
        self.leafs.as_slice()
    }

    pub fn get_zero_index(&self) -> (r: &[usize])
        ensures
            r@ == self@.zero_index,
    {
        self.zero_index.as_slice()
    }

    pub fn get_node(&self, index: usize) -> (r: Result<Node, MerkleError>)
        ensures
            index < self@.nodes.len() ==> r == Ok::<Node, MerkleError>(self@.nodes[index as int]),
            index >= self@.nodes.len() ==> r == Err::<Node, MerkleError>(
                MerkleError::IndexOutOfBounds {
                    index,
                    max: if self@.nodes.len() == 0 { 0 } else { (self@.nodes.len() - 1) as usize },
                },
            ),
    {
        if index >= self.nodes.len() {
            return Err(
                MerkleError::IndexOutOfBounds {
                    index,
                    max: if self.nodes.len() == 0 { 0 } else { self.nodes.len() - 1 },
                },
            );
        }
        Ok(self.nodes[index])
    }

    pub fn get_leaf(&self, index: usize) -> (r: Result<Leaf, MerkleError>)
        ensures
            index < self@.leafs.len() ==> r == Ok::<Leaf, MerkleError>(self@.leafs[index as int]),
            index >= self@.leafs.len() ==> r == Err::<Leaf, MerkleError>(
                MerkleError::IndexOutOfBounds {
                    index,
                    max: if self@.leafs.len() == 0 { 0 } else { (self@.leafs.len() - 1) as usize },
                },
            ),
    {
        if index >= self.leafs.len() {
            return Err(
                MerkleError::IndexOutOfBounds {
                    index,
                    max: if self.leafs.len() == 0 { 0 } else { self.leafs.len() - 1 },
                },
            );
        }
        Ok(self.leafs[index].clone())
    }

    pub fn get_height(&self) -> (r: usize)
        ensures
            r == self@.height,
    {
        self.height
    }

    /// The inclusion proof of leaf `index`: the leaf and one sibling per level below the root.
    pub fn get_proof(&self, index: usize) -> (r: Result<InclusionProof, MerkleError>)
        requires
            self.wf(),
        ensures
            index >= self@.leafs.len() ==> r == Err::<InclusionProof, MerkleError>(
                MerkleError::IndexOutOfBounds { index, max: (self@.leafs.len() - 1) as usize },
            ),
            index < self@.leafs.len() ==> r is Ok && r->Ok_0.leaf == self@.leafs[index as int]
                && r->Ok_0.path@ == self@.proof_path(index as int),
    {
        let n = self.leafs.len();
        if index >= n {
            return Err(MerkleError::IndexOutOfBounds { index, max: n - 1 });
        }
        let leaf = self.leafs[index].clone();
        let ghost t = self@;
        let ghost h = t.height;
        let mut path: Vec<Neighbor> = Vec::new();
        let mut level_size: usize = n;
        let mut level_index: usize = index;
        let mut level_start: usize = 0;
        let mut l: usize = 0;
        let nn = self.nodes.len();
        proof {
            lemma_level_ends(h);
        }
        while l + 1 < self.height
            invariant
                self.wf(),
                nn == t.nodes.len(),
                t == self@,
                h == t.height,
                n == t.leafs.len(),
                index < n,
                0 <= l < h,
                level_start == lstart(h, l as int),
                level_size == lsize(h, l as int),
                level_index == pos(index as int, l as nat),
                path@ == t.proof_path(index as int).subrange(0, l as int),
            decreases h - l,
        {
            proof {
                lemma_pos_bound(h, index as int, l as int);
                lemma_level_step(h, l as int);
                lemma_start_below_root(h, l + 1);
                lemma_level_ends(h);
            }
            let current_index = level_start + level_index;
            let nb = if level_index % 2 == 0 {
                Neighbor { position: Position::Right, node: self.nodes[current_index + 1] }
            } else {
                Neighbor { position: Position::Left, node: self.nodes[current_index - 1] }
            };
            path.push(nb);
            proof {
                assert(path@ =~= t.proof_path(index as int).subrange(0, l + 1));
            }
            level_start = level_start + level_size;
            level_index = level_index / 2;
            level_size = level_size / 2;
            l = l + 1;
        }
        proof {
            assert(path@ =~= t.proof_path(index as int));
        }
        Ok(InclusionProof { leaf, path })
    }

    /// Folds the proof's path onto its leaf and compares the result with `root`; needs no
    /// tree, only a root known to be good.
    pub fn verify_proof_against_root(proof: &InclusionProof, root: Node) -> (r: Result<
        bool,
        MerkleError,
    >)
        ensures
            r == match fold_path(proof.leaf.node(), proof.path@) {
                Ok(n) => Ok::<bool, MerkleError>(n == root),
                Err(e) => Err(e),
            },
    {
        let ms = MimcSponge::default();
        let mut node = proof.leaf.get_node();
        let mut i: usize = 0;
        while i < proof.path.len()
            invariant
                ms.wf(),
                0 <= i <= proof.path@.len(),
                fold_path(proof.leaf.node(), proof.path@.subrange(0, i as int)) == Ok::<
                    Node,
                    MerkleError,
                >(node),
            decreases proof.path@.len() - i,
        {
            let nb = proof.path[i];
            proof {
                assert(proof.path@.subrange(0, i + 1).drop_last() =~= proof.path@.subrange(0, i as int));
            }
            let next = match nb.position {
                Position::Right => Self::parent_with(&ms, node, nb.node),
                Position::Left => Self::parent_with(&ms, nb.node, node),
            };
            match next {
                Ok(p) => node = p,
                Err(e) => {
                    proof {
                        lemma_fold_err_extends(proof.leaf.node(), proof.path@, i as int + 1);
                    }
                    return Err(e);
                },
            }
            i = i + 1;
        }
        proof {
            assert(proof.path@.subrange(0, i as int) =~= proof.path@);
        }
        Ok(node.is_equal(root))
    }

    /// Folds the proof's path onto its leaf and compares the result with this tree's root.
    pub fn verify_proof(&self, proof: &InclusionProof) -> (r: Result<bool, MerkleError>)
        requires
            self.wf(),
        ensures
            r == match fold_path(proof.leaf.node(), proof.path@) {
                Ok(n) => Ok::<bool, MerkleError>(n == self@.root()),
                Err(e) => Err(e),
            },
    {
        match self.get_root() {
            Ok(root) => Self::verify_proof_against_root(proof, root),
            Err(e) => Err(e),
        }
    }
}

/// The zero slots after slot `index` takes `lf`, given the list that the update produced.
proof fn lemma_zero_index_update(t: TreeModel, index: int, lf: Leaf, zi1: Seq<usize>)
    requires
        t.zero_index_ok(),
        t.leafs.len() <= usize::MAX,
        0 <= index < t.leafs.len(),
        lf.is_zero() == t.leafs[index].is_zero() ==> zi1 == t.zero_index,
        lf.is_zero() && !t.leafs[index].is_zero() ==> forall|y: usize|
            #![trigger zi1.contains(y)]
            #![trigger t.zero_index.contains(y)]
            zi1.contains(y) <==> (t.zero_index.contains(y) || y == index),
        !lf.is_zero() && t.leafs[index].is_zero() ==> forall|y: usize|
            #![trigger zi1.contains(y)]
            #![trigger t.zero_index.contains(y)]
            zi1.contains(y) <==> (t.zero_index.contains(y) && y != index),
        forall|a: int, b: int| 0 <= a < b < zi1.len() ==> zi1[a] < zi1[b],
    ensures
        (TreeModel { leafs: t.leafs.update(index, lf), zero_index: zi1, ..t }).zero_index_ok(),
{
    let t1 = TreeModel { leafs: t.leafs.update(index, lf), zero_index: zi1, ..t };
    assert forall|k: int| 0 <= k < zi1.len() implies #[trigger] zi1[k] < t1.leafs.len()
        && t1.leafs[zi1[k] as int].is_zero() by {
        assert(zi1.contains(zi1[k]));
        if zi1[k] != index {
            let j = choose|j: int| 0 <= j < t.zero_index.len() && t.zero_index[j] == zi1[k];
            assert(t.zero_index[j] < t.leafs.len());
        }
    }
    assert forall|i: int| 0 <= i < t1.leafs.len() && (#[trigger] t1.leafs[i]).is_zero() implies zi1.contains(
        i as usize,
    ) by {
        if i != index {
            assert(t.leafs[i] == t1.leafs[i]);
            assert(t.zero_index.contains(i as usize));
        }
    }
}

/// Inserting `index` at the place that `lower_bound` found keeps the list strictly
/// increasing and adds exactly `index`.
proof fn lemma_zero_insert(t: TreeModel, index: int, p: int)
    requires
        t.zero_index_ok(),
        t.leafs.len() <= usize::MAX,
        0 <= index < t.leafs.len(),
        !t.leafs[index].is_zero(),
        0 <= p <= t.zero_index.len(),
        forall|k: int| 0 <= k < p ==> t.zero_index[k] < index,
        forall|k: int| p <= k < t.zero_index.len() ==> t.zero_index[k] >= index,
    ensures
        ({
            let zi1 = t.zero_index.insert(p, index as usize);
            &&& forall|a: int, b: int| 0 <= a < b < zi1.len() ==> zi1[a] < zi1[b]
            &&& forall|y: usize|
                #![trigger zi1.contains(y)]
                #![trigger t.zero_index.contains(y)]
                zi1.contains(y) <==> (t.zero_index.contains(y) || y == index)
        }),
{
    let zi = t.zero_index;
    let zi1 = zi.insert(p, index as usize);
    zi.insert_ensures(p, index as usize);
    assert forall|k: int| p <= k < zi.len() implies zi[k] > index by {
        assert(t.leafs[zi[k] as int].is_zero());
    }
    assert(zi1[p] == index);
    assert forall|a: int, b: int| 0 <= a < b < zi1.len() implies zi1[a] < zi1[b] by {
        if b < p {
            assert(zi1[a] == zi[a] && zi1[b] == zi[b]);
        } else if b == p {
            assert(zi1[a] == zi[a]);
        } else if a < p {
            assert(zi1[a] == zi[a] && zi1[(b - 1) + 1] == zi[b - 1]);
        } else if a == p {
            assert(zi1[(b - 1) + 1] == zi[b - 1]);
        } else {
            assert(zi1[(a - 1) + 1] == zi[a - 1] && zi1[(b - 1) + 1] == zi[b - 1]);
        }
    }
    assert forall|y: usize| zi1.contains(y) implies (zi.contains(y) || y == index) by {
        let k = choose|k: int| 0 <= k < zi1.len() && zi1[k] == y;
        if k < p {
            assert(zi[k] == y);
        } else if k > p {
            assert(zi[k - 1] == y);
        }
    }
    assert forall|y: usize| (zi.contains(y) || y == index) implies zi1.contains(y) by {
        if y == index {
            assert(zi1[p] == y);
        } else {
            let k = choose|k: int| 0 <= k < zi.len() && zi[k] == y;
            if k < p {
                assert(zi1[k] == y);
            } else {
                assert(zi1[k + 1] == y);
            }
        }
    }
}

/// Removing the entry `p`, which holds `index`, keeps the list strictly increasing and
/// takes out exactly `index`.
proof fn lemma_zero_remove(t: TreeModel, index: int, p: int)
    requires
        t.zero_index_ok(),
        0 <= p < t.zero_index.len(),
        t.zero_index[p] == index,
    ensures
        ({
            let zi1 = t.zero_index.remove(p);
            &&& forall|a: int, b: int| 0 <= a < b < zi1.len() ==> zi1[a] < zi1[b]
            &&& forall|y: usize|
                #![trigger zi1.contains(y)]
                #![trigger t.zero_index.contains(y)]
                zi1.contains(y) <==> (t.zero_index.contains(y) && y != index)
        }),
{
    let zi = t.zero_index;
    let zi1 = zi.remove(p);
    zi.remove_ensures(p);
    assert forall|y: usize| zi1.contains(y) implies (zi.contains(y) && y != index) by {
        let k = choose|k: int| 0 <= k < zi1.len() && zi1[k] == y;
        if k < p {
            assert(zi[k] == y);
        } else {
            assert(zi[k + 1] == y);
        }
    }
    assert forall|y: usize| (zi.contains(y) && y != index) implies zi1.contains(y) by {
        let k = choose|k: int| 0 <= k < zi.len() && zi[k] == y;
        if k < p {
            assert(zi1[k] == y);
        } else {
            assert(zi1[k - 1] == y);
        }
    }
}

/// The position at which `x` belongs in the strictly increasing `v`.
fn lower_bound(v: &Vec<usize>, x: usize) -> (p: usize)
    requires
        forall|a: int, b: int| 0 <= a < b < v@.len() ==> v@[a] < v@[b],
    ensures
        p <= v@.len(),
        forall|k: int| 0 <= k < p ==> v@[k] < x,
        forall|k: int| p <= k < v@.len() ==> v@[k] >= x,
{
    let mut lo: usize = 0;
    let mut hi: usize = v.len();
    while lo < hi
        invariant
            lo <= hi <= v@.len(),
            forall|a: int, b: int| 0 <= a < b < v@.len() ==> v@[a] < v@[b],
            forall|k: int| 0 <= k < lo ==> v@[k] < x,
            forall|k: int| hi <= k < v@.len() ==> v@[k] >= x,
        decreases hi - lo,
    {
        let mid = lo + (hi - lo) / 2;
        if v[mid] < x {
            lo = mid + 1;
        } else {
            hi = mid;
        }
    }
    lo
}

/// After the path of leaf `index` is replaced by the folds of its proof path from `lf`'s
/// node, the tree is well formed again and its root is the whole fold.
proof fn lemma_path_written(t: TreeModel, t1: TreeModel, index: int, lf: Leaf, path: Seq<Node>)
    requires
        t.wf(),
        lf.wf(),
        0 <= index < t.leafs.len(),
        t1.leafs == t.leafs.update(index, lf),
        t1.height == t.height,
        t1.nodes.len() == t.nodes.len(),
        t1.zero_index_ok(),
        path.len() == t.height,
        forall|k: int|
            0 <= k < t.height ==> fold_path(lf.node(), #[trigger] t.proof_path(index).subrange(0, k))
                == Ok::<Node, MerkleError>(path[k]),
        forall|a: int, m: int|
            0 <= a < t.height && 0 <= m < lsize(t.height, a) ==> #[trigger] t1.at(a, m) == if m == pos(
                index,
                a as nat,
            ) {
                path[a]
            } else {
                t.at(a, m)
            },
    ensures
        t1.wf(),
        Ok::<Node, MerkleError>(t1.root()) == fold_path(lf.node(), t.proof_path(index)),
        t1.proof_path(index) == t.proof_path(index),
{
    let h = t.height;
    let pp = t.proof_path(index);
    lemma_level_ends(h);
    assert(t1.zero_index_ok());
    assert forall|i: int| 0 <= i < t1.leafs.len() implies t1.nodes[i] == (#[trigger] t1.leafs[i]).node() by {
        assert(t1.at(0, i) == t1.nodes[i]);
        assert(t.at(0, i) == t.nodes[i]);
        if i == index {
            assert(pp.subrange(0, 0) =~= Seq::<Neighbor>::empty());
        }
    }
    assert forall|a: int, m: int| 0 <= a < h - 1 && 0 <= m < lsize(h, a + 1) implies #[trigger] t1.parent_holds(
        a,
        m,
    ) by {
        lemma_level_step(h, a);
        lemma_pos_bound(h, index, a);
        let p = pos(index, a as nat);
        assert(pos(index, (a + 1) as nat) == p / 2);
        assert(t1.at(a, 2 * m) == t1.nodes[lstart(h, a) + 2 * m]);
        assert(t1.at(a, 2 * m + 1) == t1.nodes[lstart(h, a) + 2 * m + 1]);
        assert(t1.at(a + 1, m) == t1.nodes[lstart(h, a + 1) + m]);
        if m == p / 2 {
            assert(pp.subrange(0, a + 1).drop_last() =~= pp.subrange(0, a));
            assert(pp.subrange(0, a + 1).last() == t.neighbor_at(index, a));
        } else {
            assert(t.parent_holds(a, m));
        }
    }
    assert(t1.wf());
    assert forall|a: int| 0 <= a < h - 1 implies #[trigger] t1.neighbor_at(index, a) == t.neighbor_at(
        index,
        a,
    ) by {
        lemma_level_step(h, a);
        lemma_pos_bound(h, index, a);
    }
    assert(t1.proof_path(index) =~= pp);
    assert(pp.subrange(0, h - 1) =~= pp);
    assert(t1.at(h - 1, 0) == t1.root());
    lemma_pos_bound(h, index, h - 1);
}

/// Once a fold fails on a prefix, it fails on every longer prefix with the same error.
pub proof fn lemma_fold_err_extends(start: Node, path: Seq<Neighbor>, k: int)
    requires
        0 <= k <= path.len(),
        fold_path(start, path.subrange(0, k)) is Err,
    ensures
        fold_path(start, path) == fold_path(start, path.subrange(0, k)),
    decreases path.len() - k,
{
    if k < path.len() {
        assert(path.subrange(0, k + 1).drop_last() =~= path.subrange(0, k));
        lemma_fold_err_extends(start, path, k + 1);
    } else {
        assert(path.subrange(0, k) =~= path);
    }
}

} // verus!
