//! A Merkle sum tree hashed with MiMC-Sponge over the Pallas scalar field.
pub mod error;
pub mod field;
pub mod laws;
pub mod mimc_sponge;
pub mod node;
pub mod tree;

pub use error::MerkleError;
pub use field::Fr;
pub use mimc_sponge::MimcSponge;
pub use node::{InclusionProof, Leaf, Neighbor, Node, Position};
pub use tree::MerkleSumTree;
