//! Nodes, leaves, proof paths, and the rule that combines two children into their parent.
use vstd::prelude::*;
use crate::field::{Fr, fr_of, lift_i32, lemma_fr_of_value};
use crate::mimc_sponge::sponge_output;
use crate::error::MerkleError;

verus! {

/// A node of the tree: a hash and the sum of the values below it.
#[derive(Clone, Copy, Debug, PartialEq, Eq, Structural)]
pub struct Node {
    pub hash: Fr,
    pub value: i32,
}

impl Node {
    pub fn new(hash: Fr, value: i32) -> (r: Node)
        ensures
            r == (Node { hash, value }),
    {
        Node { hash, value }
    }

    pub fn get_hash(&self) -> (r: Fr)
        ensures
            r == self.hash,
    {
        self.hash
    }

    pub fn get_value(&self) -> (r: i32)
        ensures
            r == self.value,
    {
        self.value
    }

    /// Componentwise equality.
    pub fn is_equal(&self, node: Node) -> (r: bool)
        ensures
            r == (*self == node),
    {
        self.hash == node.hash && self.value == node.value
    }
}

/// The 64-bit digest of an identifier under std's default hasher.
pub uninterp spec fn id_digest(id: Seq<char>) -> u64;

/// Relies on std's `BuildHasher::hash_one` for `BuildHasherDefault<DefaultHasher>` (a
/// `DefaultHasher` made by `new`, so with fixed keys): the digest depends on the characters
/// of `id` alone.
#[verifier::external_body]
fn digest_id(id: &String) -> (r: u64)
    ensures
        r == id_digest(id@),
{
    std::hash::BuildHasher::hash_one(
        &std::hash::BuildHasherDefault::<std::collections::hash_map::DefaultHasher>::default(),
        id,
    )
}

/// The identifier of the zero-leaf.
pub open spec fn zero_id() -> Seq<char> {
    seq!['0']
}

/// The node of the zero-leaf.
pub open spec fn zero_node() -> Node {
    Node { hash: fr_of(id_digest(zero_id()) as int), value: 0 }
}

/// A leaf: an identifier and the node made of its digest and its value.
#[derive(Debug)]
pub struct Leaf {
    id: String,
    node: Node,
}

impl Leaf {
    pub closed spec fn id(&self) -> Seq<char> {
        self.id@
    }

    pub closed spec fn node(&self) -> Node {
        self.node
    }

    /// The node's hash is the identifier's digest.
    #[verifier::type_invariant]
    pub closed spec fn wf(&self) -> bool {
        self.node.hash == fr_of(id_digest(self.id@) as int)
    }

    /// The zero-leaf: identifier "0" and value 0.
    pub open spec fn is_zero(&self) -> bool {
        self.id() == zero_id() && self.node().value == 0
    }

    pub fn new(id: String, value: i32) -> (r: Leaf)
        ensures
            r.wf(),
            r.id() == id@,
            r.node().value == value,
            r.node().hash.value() == id_digest(id@) as int,
    {
        let d = digest_id(&id);
        let hash = Fr::from_u128(d as u128);
        proof {
            lemma_fr_of_value(hash);
        }
        Leaf { id, node: Node { hash, value } }
    }

    pub fn get_id(&self) -> (r: &str)
        ensures
            r@ == self.id(),
    {
        self.id.as_str()
    }

    pub fn get_node(&self) -> (r: Node)
        ensures
            r == self.node(),
            self.wf(),
    {
        proof {
            use_type_invariant(self);
        }
        self.node
    }

    /// Whether this is the zero-leaf.
    pub fn is_none(&self) -> (r: bool)
        ensures
            r == self.is_zero(),
    {
        let zero = "0".to_owned();
        proof {
            reveal_strlit("0");
            assert(zero@ =~= zero_id());
        }
        self.id.eq(&zero) && self.node.value == 0
    }

    /// A well-formed zero-leaf carries the zero node.
    pub proof fn lemma_zero_leaf_node(a: Leaf)
        requires
            a.wf(),
            a.is_zero(),
        ensures
            a.node() == zero_node(),
    {
    }
}

impl Clone for Leaf {
    fn clone(&self) -> (r: Leaf)
        ensures
            r == *self,
    {
        proof {
            use_type_invariant(self);
        }
        Leaf { id: self.id.clone(), node: self.node }
    }
}

/// The side on which a sibling sits.
#[derive(Clone, Copy, Debug, PartialEq, Eq, Structural)]
pub enum Position {
    Left,
    Right,
}

/// A sibling on a proof path and its side.
#[derive(Clone, Copy, Debug, PartialEq, Eq, Structural)]
pub struct Neighbor {
    pub position: Position,
    pub node: Node,
}

impl Neighbor {
    pub fn new(position: Position, node: Node) -> (r: Neighbor)
        ensures
            r == (Neighbor { position, node }),
    {
        Neighbor { position, node }
    }

    pub fn get_position(&self) -> (r: Position)
        ensures
            r == self.position,
    {
        self.position
    }

    pub fn get_node(&self) -> (r: Node)
        ensures
            r == self.node,
    {
        self.node
    }
}

/// A leaf and the siblings on its way to the root, lowest first.
#[derive(Debug)]
pub struct InclusionProof {
    pub leaf: Leaf,
    pub path: Vec<Neighbor>,
}

impl InclusionProof {
    pub fn get_path(&self) -> (r: &[Neighbor])
        ensures
            r@ == self.path@,
    {
        self.path.as_slice()
    }

    pub fn get_leaf(&self) -> (r: &Leaf)
        ensures
            *r == self.leaf,
    {
        &self.leaf
    }
}

/// The sum of the two values fits in `i32`.
pub open spec fn sum_fits(l: Node, r: Node) -> bool {
    i32::MIN <= l.value + r.value <= i32::MAX
}

/// The parent's hash: the sponge's first output on `[hL, vL, hR, vR]` with key 0.
pub open spec fn parent_hash(l: Node, r: Node) -> int {
    sponge_output(seq![l.hash.value(), lift_i32(l.value), r.hash.value(), lift_i32(r.value)], 0, 0)
}

/// The parent of two nodes whose values add up within `i32`.
pub open spec fn parent_node(l: Node, r: Node) -> Node {
    Node { hash: fr_of(parent_hash(l, r)), value: (l.value + r.value) as i32 }
}

/// What combining `l` and `r` gives: their parent, or an overflow.
pub open spec fn parent_spec(l: Node, r: Node) -> Result<Node, MerkleError> {
    if sum_fits(l, r) {
        Ok(parent_node(l, r))
    } else {
        Err(MerkleError::OverflowError)
    }
}

/// Folds a path onto a starting node, bottom up; the first overflow stops it.
pub open spec fn fold_path(start: Node, path: Seq<Neighbor>) -> Result<Node, MerkleError>
    decreases path.len(),
{
    if path.len() == 0 {
        Ok(start)
    } else {
        match fold_path(start, path.drop_last()) {
            Err(e) => Err(e),
            Ok(n) => {
                let nb = path.last();
                match nb.position {
                    Position::Right => parent_spec(n, nb.node),
                    Position::Left => parent_spec(nb.node, n),
                }
            },
        }
    }
}

/// The sum of the values of a path's nodes.
pub open spec fn path_sum(path: Seq<Neighbor>) -> int
    decreases path.len(),
{
    if path.len() == 0 {
        0
    } else {
        path_sum(path.drop_last()) + path.last().node.value
    }
}

} // verus!
