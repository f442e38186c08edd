use merkle_sum_tree::{Fr, Leaf, MerkleError, MerkleSumTree, MimcSponge, Node, Position};

fn tree_of(values: &[(&str, i32)]) -> MerkleSumTree {
    let leafs: Vec<Leaf> = values.iter().map(|(id, v)| Leaf::new(id.to_string(), *v)).collect();
    MerkleSumTree::new(leafs).expect("Failed to create tree")
}

#[test]
fn test_basic_tree_creation() {
    let leaf_1 = Leaf::new("user1".to_string(), 100);
    let leaf_2 = Leaf::new("user2".to_string(), 200);
    let leafs = vec![leaf_1, leaf_2];

    let tree = MerkleSumTree::new(leafs).expect("Failed to create tree");

    assert_eq!(tree.get_height(), 2);
    assert!(tree.get_root_sum().is_ok());
    assert_eq!(tree.get_root_sum().unwrap(), 300);
}

#[test]
fn test_empty_tree_error() {
    let leafs: Vec<Leaf> = vec![];
    let result = MerkleSumTree::new(leafs);
    assert!(result.is_err());
    assert!(matches!(result.unwrap_err(), MerkleError::InvalidTree(_)));
}

#[test]
fn test_inclusion_proof_generation_and_verification() {
    let leaf_1 = Leaf::new("account1".to_string(), 100);
    let leaf_2 = Leaf::new("account2".to_string(), 200);
    let leaf_3 = Leaf::new("account3".to_string(), 150);
    let leaf_4 = Leaf::new("account4".to_string(), 75);

    let leafs = vec![leaf_1.clone(), leaf_2, leaf_3, leaf_4];
    let tree = MerkleSumTree::new(leafs).expect("Failed to create tree");

    let proof = tree.get_proof(0).expect("Failed to generate proof");

    let is_valid = tree.verify_proof(&proof).expect("Failed to verify proof");
    assert!(is_valid, "Proof should be valid");

    assert_eq!(proof.get_leaf().get_id(), "account1");
    assert_eq!(proof.get_leaf().get_node().get_value(), 100);
}

#[test]
fn test_index_out_of_bounds() {
    let leafs = vec![Leaf::new("test".to_string(), 1)];
    let tree = MerkleSumTree::new(leafs).unwrap();

    let result = tree.get_proof(10);
    assert!(result.is_err());
    assert!(matches!(result.unwrap_err(), MerkleError::IndexOutOfBounds { .. }));

    let result = tree.get_leaf(10);
    assert!(result.is_err());
    assert!(matches!(result.unwrap_err(), MerkleError::IndexOutOfBounds { .. }));
}

#[test]
fn test_tree_operations() {
    let leaf_1 = Leaf::new("user1".to_string(), 50);
    let leaf_2 = Leaf::new("user2".to_string(), 100);
    let leafs = vec![leaf_1, leaf_2];

    let mut tree = MerkleSumTree::new(leafs).expect("Failed to create tree");
    let initial_sum = tree.get_root_sum().unwrap();
    assert_eq!(initial_sum, 150);

    let new_leaf = Leaf::new("user3".to_string(), 75);
    let index = tree.push(new_leaf).expect("Failed to push leaf");

    let updated_sum = tree.get_root_sum().unwrap();
    assert_eq!(updated_sum, 225);

    tree.remove(index).expect("Failed to remove leaf");
    let final_sum = tree.get_root_sum().unwrap();
    assert_eq!(final_sum, 150);
}

#[test]
fn test_node_equality_constant_time() {
    let node1 = Node::new(Fr::from_str_vartime("123").expect("Valid Fr"), 100);
    let node2 = Node::new(Fr::from_str_vartime("123").expect("Valid Fr"), 100);
    let node3 = Node::new(Fr::from_str_vartime("456").expect("Valid Fr"), 200);

    assert!(node1.is_equal(node2));
    assert!(!node1.is_equal(node3));
}

#[test]
fn test_overflow_protection() {
    let leaf1 = Leaf::new("test1".to_string(), i32::MAX - 1);
    let leaf2 = Leaf::new("test2".to_string(), 2);

    let result = MerkleSumTree::build_parent(leaf1.get_node(), leaf2.get_node());
    assert!(result.is_err());
    assert!(matches!(result.unwrap_err(), MerkleError::OverflowError));
}

#[test]
fn test_get_methods_return_references() {
    let leafs = vec![Leaf::new("test".to_string(), 1)];
    let tree = MerkleSumTree::new(leafs).unwrap();

    let nodes_ref = tree.get_nodes();
    let leafs_ref = tree.get_leafs();
    let zero_index_ref = tree.get_zero_index();

    assert!(!nodes_ref.is_empty());
    assert!(!leafs_ref.is_empty());
    let _ = zero_index_ref.len();
}

#[test]
fn it_works() {
    let leaf_1 = Leaf::new("11672136".to_string(), 10);
    let leaf_2 = Leaf::new("10566265".to_string(), 11);
    let leaf_3 = Leaf::new("10566215".to_string(), 12);
    let leaf_4 = Leaf::new("10566215".to_string(), 13);
    let _leaf_5 = Leaf::new("10566215".to_string(), 14);
    let _leaf_0 = Leaf::new("0".to_string(), 0);

    let merkle_sum_tree = MerkleSumTree::new(vec![leaf_1.clone(), leaf_2, leaf_3, leaf_4]).unwrap();
    let root_hash = merkle_sum_tree.get_root_hash().unwrap();
    let root_sum = merkle_sum_tree.get_root_sum().unwrap();
    let _height = merkle_sum_tree.get_height();
    let proof = merkle_sum_tree.get_proof(1).unwrap();
    let _nodes = merkle_sum_tree.get_nodes();
    let zero_index = merkle_sum_tree.get_zero_index();
    let included = merkle_sum_tree.verify_proof(&proof);
    println!("root_hash: {:?}, root_sum: {:?}", root_hash, root_sum);
    println!("included: {:?}", included);
    println!("zero_index: {:?}", zero_index)
}

#[test]
fn test_mimc_multi_hash_computation() {
    let arr = vec![
        Fr::from_str_vartime("11672136").expect("Valid test value"),
        Fr::from_str_vartime("10").expect("Valid test value"),
        Fr::from_str_vartime("10566265").expect("Valid test value"),
        Fr::from_str_vartime("11").expect("Valid test value"),
    ];
    let k = Fr::zero();
    let ms = MimcSponge::default();
    let res = ms.multi_hash(&arr, k, 1);

    assert!(!res.is_empty());
    assert_ne!(res[0], Fr::zero());
}

// Scenarios and edge cases.

#[test]
fn two_leaves_both_proofs_verify() {
    let tree = tree_of(&[("user1", 100), ("user2", 200)]);
    assert_eq!(tree.get_height(), 2);
    assert_eq!(tree.get_root_sum().unwrap(), 300);
    for i in 0..2 {
        let proof = tree.get_proof(i).unwrap();
        assert_eq!(proof.get_path().len(), 1);
        assert_eq!(tree.verify_proof(&proof), Ok(true));
    }
}

#[test]
fn four_leaves_tampered_neighbor_value_rejected() {
    let tree = tree_of(&[("a", 100), ("b", 200), ("c", 150), ("d", 75)]);
    assert_eq!(tree.get_root_sum().unwrap(), 525);
    for i in 0..4 {
        for level in 0..2 {
            let mut proof = tree.get_proof(i).unwrap();
            assert_eq!(tree.verify_proof(&proof), Ok(true));
            proof.path[level].node.value += 1;
            assert_eq!(tree.verify_proof(&proof), Ok(false));
        }
    }
}

#[test]
fn tampered_neighbor_hash_or_value_bit_rejected() {
    let tree = tree_of(&[("a", 100), ("b", 200), ("c", 150), ("d", 75)]);
    let mut proof = tree.get_proof(2).unwrap();
    let limbs = proof.path[1].node.hash.limbs();
    proof.path[1].node.hash = Fr::from_u128((limbs[0] ^ 1) as u128 | ((limbs[1] as u128) << 64));
    assert_eq!(tree.verify_proof(&proof), Ok(false));
    let mut proof = tree.get_proof(2).unwrap();
    proof.path[0].node.value ^= 1;
    assert_eq!(tree.verify_proof(&proof), Ok(false));
}

#[test]
fn limbs_are_canonical_little_endian() {
    let x = Fr::from_u128((7u128 << 64) | 5);
    assert_eq!(x.limbs(), [5, 7, 0, 0]);
    let p_minus_one = Fr::from_i32(-1).limbs();
    assert_eq!(p_minus_one, [0x8c46eb2100000000, 0x224698fc0994a8dd, 0, 0x4000000000000000]);
}

#[test]
fn tampered_leaf_rejected() {
    let tree = tree_of(&[("a", 100), ("b", 200), ("c", 150), ("d", 75)]);
    let mut proof = tree.get_proof(1).unwrap();
    proof.leaf = Leaf::new("b".to_string(), 201);
    assert_eq!(tree.verify_proof(&proof), Ok(false));
    proof.leaf = Leaf::new("B".to_string(), 200);
    assert_eq!(tree.verify_proof(&proof), Ok(false));
}

#[test]
fn proof_sides_follow_index_parity() {
    let tree = tree_of(&[("a", 1), ("b", 2), ("c", 3), ("d", 4)]);
    let proof = tree.get_proof(2).unwrap();
    let path = proof.get_path();
    assert_eq!(path[0].get_position(), Position::Right);
    assert_eq!(path[0].get_node(), tree.get_node(3).unwrap());
    assert_eq!(path[1].get_position(), Position::Left);
    assert_eq!(path[1].get_node(), tree.get_node(4).unwrap());
}

#[test]
fn push_then_remove_restores_root() {
    let mut tree = tree_of(&[("user1", 50), ("user2", 100)]);
    let root_before = tree.get_root().unwrap();
    let index = tree.push(Leaf::new("user3".to_string(), 75)).unwrap();
    assert_eq!(index, 2);
    assert_eq!(tree.get_root_sum().unwrap(), 225);
    assert_eq!(tree.get_height(), 3);
    assert_eq!(tree.get_leafs().len(), 4);
    assert_eq!(tree.get_nodes().len(), 7);
    assert_eq!(tree.get_zero_index(), &[3]);
    tree.remove(2).unwrap();
    assert_eq!(tree.get_root_sum().unwrap(), 150);
    let padded = tree_of(&[("user1", 50), ("user2", 100), ("0", 0), ("0", 0)]);
    assert_eq!(tree.get_root().unwrap(), padded.get_root().unwrap());
    assert_ne!(tree.get_root_hash().unwrap(), root_before.get_hash());
    assert_eq!(tree.get_zero_index(), &[2, 3]);

    let root_before = tree.get_root().unwrap();
    let index = tree.push(Leaf::new("user4".to_string(), 5)).unwrap();
    assert_eq!(index, 2);
    assert_eq!(tree.get_zero_index(), &[3]);
    tree.remove(index).unwrap();
    assert_eq!(tree.get_root().unwrap(), root_before);
}

#[test]
fn remove_then_set_back_restores_root() {
    let mut tree = tree_of(&[("a", 10), ("b", 20), ("c", 30), ("d", 40), ("e", 50)]);
    let root = tree.get_root().unwrap();
    let old_leaf = tree.get_leaf(3).unwrap();
    tree.remove(3).unwrap();
    assert_eq!(tree.get_root_sum().unwrap(), 110);
    assert_eq!(tree.get_zero_index(), &[3, 5, 6, 7]);
    tree.set_leaf(old_leaf, 3).unwrap();
    assert_eq!(tree.get_root().unwrap(), root);
    assert_eq!(tree.get_zero_index(), &[5, 6, 7]);
}

#[test]
fn zero_leaf_is_recognized_and_indexed_in_order() {
    let zero = Leaf::new("0".to_string(), 0);
    assert!(zero.is_none());
    assert!(!Leaf::new("0".to_string(), 1).is_none());
    assert!(!Leaf::new("00".to_string(), 0).is_none());
    let mut tree = tree_of(&[("a", 1), ("b", 2), ("c", 3), ("d", 4), ("e", 5)]);
    assert_eq!(tree.get_zero_index(), &[5, 6, 7]);
    tree.set_leaf(zero.clone(), 1).unwrap();
    assert_eq!(tree.get_zero_index(), &[1, 5, 6, 7]);
    tree.set_leaf(zero, 4).unwrap();
    assert_eq!(tree.get_zero_index(), &[1, 4, 5, 6, 7]);
    tree.set_leaf(Leaf::new("x".to_string(), 9), 5).unwrap();
    assert_eq!(tree.get_zero_index(), &[1, 4, 6, 7]);
    assert_eq!(tree.get_root_sum().unwrap(), 1 + 3 + 4 + 9);
}

#[test]
fn supplied_zero_leaves_are_indexed() {
    let tree = tree_of(&[("a", 1), ("0", 0), ("b", 2)]);
    assert_eq!(tree.get_zero_index(), &[1, 3]);
}

#[test]
fn single_leaf_tree_root_is_the_leaf() {
    let leaf = Leaf::new("only".to_string(), 42);
    let tree = MerkleSumTree::new(vec![leaf.clone()]).unwrap();
    assert_eq!(tree.get_height(), 1);
    assert_eq!(tree.get_root().unwrap(), leaf.get_node());
    assert_eq!(tree.get_nodes().len(), 1);
    let proof = tree.get_proof(0).unwrap();
    assert!(proof.get_path().is_empty());
    assert_eq!(tree.verify_proof(&proof), Ok(true));
}

#[test]
fn shape_of_a_padded_tree() {
    let tree = tree_of(&[("a", 1), ("b", 2), ("c", 3), ("d", 4), ("e", 5)]);
    assert_eq!(tree.get_leafs().len(), 8);
    assert_eq!(tree.get_nodes().len(), 15);
    assert_eq!(tree.get_height(), 4);
    assert_eq!(tree.get_root_sum().unwrap(), 15);
    for i in 0..8 {
        let proof = tree.get_proof(i).unwrap();
        assert_eq!(tree.verify_proof(&proof), Ok(true));
    }
    for q in 0..4 {
        let l = tree.get_node(2 * q).unwrap();
        let r = tree.get_node(2 * q + 1).unwrap();
        assert_eq!(MerkleSumTree::build_parent(l, r).unwrap(), tree.get_node(8 + q).unwrap());
    }
    assert!(matches!(
        tree.get_node(15),
        Err(MerkleError::IndexOutOfBounds { index: 15, max: 14 })
    ));
}

#[test]
fn get_proof_past_the_end_is_out_of_bounds() {
    let tree = tree_of(&[("a", 1), ("b", 2), ("c", 3)]);
    assert!(matches!(
        tree.get_proof(4),
        Err(MerkleError::IndexOutOfBounds { index: 4, max: 3 })
    ));
    assert!(tree.get_proof(3).is_ok());
}

#[test]
fn build_parent_overflow_and_underflow() {
    let max = Node::new(Fr::zero(), i32::MAX);
    let one = Node::new(Fr::zero(), 1);
    assert_eq!(MerkleSumTree::build_parent(max, one), Err(MerkleError::OverflowError));
    let min = Node::new(Fr::zero(), i32::MIN);
    let minus = Node::new(Fr::zero(), -1);
    assert_eq!(MerkleSumTree::build_parent(min, minus), Err(MerkleError::OverflowError));
    assert_eq!(MerkleSumTree::build_parent(max, minus).unwrap().get_value(), i32::MAX - 1);
}

#[test]
fn negative_values_are_lifted_modulo_p() {
    let tree = tree_of(&[("a", -5), ("b", 20)]);
    assert_eq!(tree.get_root_sum().unwrap(), 15);
    let proof = tree.get_proof(0).unwrap();
    assert_eq!(tree.verify_proof(&proof), Ok(true));
    let p_minus_one = Fr::from_str_vartime(
        "28948022309329048855892746252171976963363056481941647379679742748393362948096",
    )
    .unwrap();
    assert_eq!(Fr::from_i32(-1), p_minus_one);
    assert_eq!(Fr::from_i32(7), Fr::from_str_vartime("7").unwrap());
}

#[test]
fn set_leaf_overflow_leaves_tree_unchanged() {
    let mut tree = tree_of(&[("a", i32::MAX - 10), ("b", 0)]);
    let root = tree.get_root().unwrap();
    let result = tree.set_leaf(Leaf::new("c".to_string(), 20), 1);
    assert_eq!(result, Err(MerkleError::OverflowError));
    assert_eq!(tree.get_root().unwrap(), root);
    assert_eq!(tree.get_leaf(1).unwrap().get_id(), "b");
    assert!(matches!(
        tree.set_leaf(Leaf::new("c".to_string(), 1), 2),
        Err(MerkleError::IndexOutOfBounds { index: 2, max: 1 })
    ));
    assert!(matches!(tree.remove(5), Err(MerkleError::IndexOutOfBounds { index: 5, max: 1 })));
}

#[test]
fn push_rebuild_overflow_leaves_tree_unchanged() {
    let mut tree = tree_of(&[("a", i32::MAX - 1)]);
    let result = tree.push(Leaf::new("b".to_string(), 2));
    assert_eq!(result, Err(MerkleError::OverflowError));
    assert_eq!(tree.get_height(), 1);
    assert_eq!(tree.get_leafs().len(), 1);
}

#[test]
fn new_with_overflowing_sums_fails() {
    let leafs = vec![Leaf::new("a".to_string(), i32::MAX), Leaf::new("b".to_string(), 1)];
    assert!(matches!(MerkleSumTree::new(leafs), Err(MerkleError::OverflowError)));
}

#[test]
fn mimc_vector_is_pinned() {
    let arr = vec![
        Fr::from_str_vartime("11672136").unwrap(),
        Fr::from_str_vartime("10").unwrap(),
        Fr::from_str_vartime("10566265").unwrap(),
        Fr::from_str_vartime("11").unwrap(),
    ];
    let res = MimcSponge::default().multi_hash(&arr, Fr::zero(), 1);
    assert_eq!(res.len(), 1);
    let expected = Fr::from_str_vartime(
        "16553565579072543485186950579965049473545293550789632887160175454161067304169",
    )
    .unwrap();
    assert_eq!(res[0], expected);
}

#[test]
fn mimc_squeezes_several_outputs() {
    let arr = vec![Fr::from_u128(1), Fr::from_u128(2)];
    let res = MimcSponge::default().multi_hash(&arr, Fr::zero(), 3);
    let expected = [
        "14853461800317369808065348307811036576757638768282215228606608913339258852805",
        "1858802484344578968930191239468054993665651027826359588915641581448192104058",
        "14870206268177894836512494094588277263211847382051936629524084586074038536617",
    ];
    assert_eq!(res.len(), 3);
    for (r, e) in res.iter().zip(expected.iter()) {
        assert_eq!(*r, Fr::from_str_vartime(e).unwrap());
    }
    assert_eq!(MimcSponge::default().multi_hash(&arr, Fr::zero(), 0).len(), 1);
}

#[test]
fn decimal_parsing_rules() {
    assert_eq!(Fr::from_str_vartime("0"), Some(Fr::zero()));
    assert_eq!(Fr::from_str_vartime(""), None);
    assert_eq!(Fr::from_str_vartime("01"), None);
    assert_eq!(Fr::from_str_vartime("-1"), None);
    assert_eq!(Fr::from_str_vartime("12a"), None);
    assert_eq!(Fr::from_str_vartime("340282366920938463463374607431768211455"), Some(Fr::from_u128(u128::MAX)));
    let p = "28948022309329048855892746252171976963363056481941647379679742748393362948097";
    assert_eq!(Fr::from_str_vartime(p), Some(Fr::zero()));
}

#[test]
fn leaf_hash_depends_on_id_only() {
    let a1 = Leaf::new("alice".to_string(), 1);
    let a2 = Leaf::new("alice".to_string(), 2);
    let b = Leaf::new("bob".to_string(), 1);
    assert_eq!(a1.get_node().get_hash(), a2.get_node().get_hash());
    assert_ne!(a1.get_node().get_hash(), b.get_node().get_hash());
    assert_ne!(a1.get_node().get_hash(), Fr::zero());
}

#[test]
fn proof_checks_against_a_known_root_without_the_tree() {
    let tree = tree_of(&[("a", 100), ("b", 200), ("c", 150), ("d", 75)]);
    let root = tree.get_root().unwrap();
    let proof = tree.get_proof(3).unwrap();
    drop(tree);
    assert_eq!(MerkleSumTree::verify_proof_against_root(&proof, root), Ok(true));
    let other = tree_of(&[("a", 100), ("b", 200), ("c", 150), ("d", 76)]).get_root().unwrap();
    assert_eq!(MerkleSumTree::verify_proof_against_root(&proof, other), Ok(false));
}

#[test]
fn verify_reports_overflow_on_a_forged_path() {
    let tree = tree_of(&[("a", 100), ("b", 200)]);
    let mut proof = tree.get_proof(0).unwrap();
    proof.path[0].node.value = i32::MAX;
    assert_eq!(tree.verify_proof(&proof), Err(MerkleError::OverflowError));
}

#[test]
fn padded_zero_slots_follow_supplied_ones() {
    let tree = tree_of(&[("a", 1), ("b", 2), ("c", 3), ("d", 4), ("e", 5), ("0", 0)]);
    assert_eq!(tree.get_zero_index(), &[5, 6, 7]);
    let mut reused = tree_of(&[("a", 1), ("0", 0), ("b", 2)]);
    assert_eq!(reused.get_zero_index(), &[1, 3]);
    assert_eq!(reused.push(Leaf::new("c".to_string(), 4)), Ok(1));
    assert_eq!(reused.get_zero_index(), &[3]);
    assert_eq!(reused.get_root_sum(), Ok(7));
}

#[test]
fn nonnegative_leaves_build_iff_total_fits() {
    let fits = vec![
        Leaf::new("a".to_string(), i32::MAX - 3),
        Leaf::new("b".to_string(), 1),
        Leaf::new("c".to_string(), 2),
    ];
    let tree = MerkleSumTree::new(fits).unwrap();
    assert_eq!(tree.get_root_sum(), Ok(i32::MAX));
    let too_big = vec![
        Leaf::new("a".to_string(), i32::MAX - 3),
        Leaf::new("b".to_string(), 1),
        Leaf::new("c".to_string(), 3),
    ];
    assert!(matches!(MerkleSumTree::new(too_big), Err(MerkleError::OverflowError)));
}
