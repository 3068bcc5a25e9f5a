use clad_core::errors::ParallelTreeError;
use clad_core::bytes::{append_bytes, u64_to_le_bytes};
use clad_core::parallel_tree::instructions::{
    create_parallel_tree, mint_governance_metadata, modify_governance_metadata,
    remove_governance_metadata, GovernanceMetadata, MintGovernanceMetadata,
    ModifyGovernanceMetadata, RemoveGovernanceMetadata, EMPTY_DATA_HASH,
};
use clad_core::parallel_tree::mutation::{
    LeafMutation, LeafReplacement, MutationState, ServiceCall,
};
use clad_core::parallel_tree::state::{get_parallel_asset_id, LeafSchema, TreeConfig};

const CREATOR: [u8; 32] = [20; 32];
const DELEGATE: [u8; 32] = [21; 32];
const STRANGER: [u8; 32] = [22; 32];
const TREE: [u8; 32] = [9; 32];
const OWNER: [u8; 32] = [2; 32];
const LEAF_DELEGATE: [u8; 32] = [3; 32];
const ROOT: [u8; 32] = [40; 32];

const ASSET_ID: [u8; 32] = [
    232, 223, 237, 58, 5, 179, 137, 190, 60, 255, 44, 16, 145, 199, 104, 47, 147, 152, 112, 179,
    113, 227, 14, 240, 192, 221, 66, 120, 71, 146, 84, 223,
];
const METADATA_HASH: [u8; 32] = [
    122, 157, 58, 3, 43, 143, 242, 116, 240, 151, 20, 181, 107, 168, 229, 237, 119, 110, 201, 99,
    140, 163, 3, 6, 155, 195, 163, 38, 123, 178, 47, 101,
];

fn private_tree() -> TreeConfig {
    TreeConfig { tree_creator: CREATOR, tree_delegate: DELEGATE, is_public: false }
}

fn modify_accounts(config: TreeConfig, signer: [u8; 32]) -> ModifyGovernanceMetadata {
    ModifyGovernanceMetadata {
        parallel_tree_authority: config,
        parallel_tree: TREE,
        leaf_owner: OWNER,
        leaf_delegate: LEAF_DELEGATE,
        tree_delegate: signer,
    }
}

fn metadata() -> GovernanceMetadata {
    GovernanceMetadata { compressed_nft: b"asset".to_vec(), encoded: b"metadata".to_vec() }
}

fn replacement() -> LeafReplacement {
    LeafReplacement { root: ROOT, previous_leaf: [1; 32], new_leaf: [2; 32], index: 6 }
}

#[test]
fn leaf_node_is_keccak_of_the_fields_in_order() {
    let leaf = LeafSchema::new_v0([1; 32], [2; 32], [3; 32], 7, [4; 32]);
    assert_eq!(
        leaf.to_node(),
        [
            110, 45, 119, 189, 206, 10, 69, 139, 58, 126, 9, 213, 182, 209, 16, 70, 7, 168, 57,
            85, 124, 131, 88, 164, 165, 166, 83, 38, 214, 149, 117, 148
        ]
    );
    let leaf = LeafSchema::new_v0([1; 32], [2; 32], [3; 32], 0x0102030405060708, [0; 32]);
    assert_eq!(
        leaf.to_node(),
        [
            71, 156, 182, 0, 162, 197, 126, 65, 81, 69, 123, 244, 41, 97, 180, 219, 18, 152, 82,
            8, 146, 180, 255, 41, 19, 197, 52, 200, 174, 24, 9, 105
        ]
    );
}

#[test]
fn leaf_node_agrees_with_hashing_the_parts_one_by_one() {
    let leaf = LeafSchema::new_v0([11; 32], [12; 32], [13; 32], u64::MAX - 5, [14; 32]);
    let nonce = (u64::MAX - 5).to_le_bytes();
    let parts: [&[u8]; 5] = [&leaf.id, &leaf.owner, &leaf.delegate, &nonce, &leaf.data_hash];
    #[allow(deprecated)]
    let expected = solana_program::keccak::hashv(&parts).to_bytes();
    assert_eq!(leaf.to_node(), expected);
}

#[test]
fn leaf_node_depends_on_every_field() {
    let base = LeafSchema::new_v0([1; 32], [2; 32], [3; 32], 7, [4; 32]);
    let node = base.to_node();
    assert_ne!(LeafSchema::new_v0([0; 32], [2; 32], [3; 32], 7, [4; 32]).to_node(), node);
    assert_ne!(LeafSchema::new_v0([1; 32], [0; 32], [3; 32], 7, [4; 32]).to_node(), node);
    assert_ne!(LeafSchema::new_v0([1; 32], [2; 32], [0; 32], 7, [4; 32]).to_node(), node);
    assert_ne!(LeafSchema::new_v0([1; 32], [2; 32], [3; 32], 8, [4; 32]).to_node(), node);
    assert_ne!(LeafSchema::new_v0([1; 32], [2; 32], [3; 32], 7, [0; 32]).to_node(), node);
    assert_ne!(LeafSchema::new_v0([2; 32], [1; 32], [3; 32], 7, [4; 32]).to_node(), node);
    assert_ne!(node, base.id);
    assert_ne!(node, base.data_hash);
}

#[test]
fn new_v0_stores_the_parts() {
    let leaf = LeafSchema::new_v0([1; 32], [2; 32], [3; 32], 7, [4; 32]);
    assert_eq!(
        leaf,
        LeafSchema { id: [1; 32], owner: [2; 32], delegate: [3; 32], nonce: 7, data_hash: [4; 32] }
    );
}

#[test]
fn asset_id_is_keccak_of_tree_and_payload() {
    assert_eq!(get_parallel_asset_id(&TREE, b"asset"), ASSET_ID);
    assert_eq!(get_parallel_asset_id(&TREE, b"asset"), get_parallel_asset_id(&TREE, b"asset"));
    assert_ne!(get_parallel_asset_id(&TREE, b"other"), ASSET_ID);
    assert_ne!(get_parallel_asset_id(&[8; 32], b"asset"), ASSET_ID);
}

#[test]
fn asset_id_of_empty_payload_hashes_the_tree_alone() {
    let mut tree = [0u8; 32];
    tree[0] = 1;
    let id = get_parallel_asset_id(&tree, b"");
    assert_ne!(id, tree);
    assert_ne!(id, [0u8; 32]);
}

#[test]
fn nonce_bytes_are_little_endian() {
    assert_eq!(u64_to_le_bytes(0), [0; 8]);
    assert_eq!(u64_to_le_bytes(7), [7, 0, 0, 0, 0, 0, 0, 0]);
    assert_eq!(u64_to_le_bytes(0x0102030405060708), [8, 7, 6, 5, 4, 3, 2, 1]);
    assert_eq!(u64_to_le_bytes(u64::MAX), [255; 8]);
    assert_eq!(u64_to_le_bytes(1 << 56), (1u64 << 56).to_le_bytes());
}

#[test]
fn append_bytes_adds_at_the_end() {
    let mut buffer = vec![1u8, 2];
    append_bytes(&mut buffer, &[3, 4, 5]);
    assert_eq!(buffer, vec![1, 2, 3, 4, 5]);
    append_bytes(&mut buffer, &[]);
    assert_eq!(buffer, vec![1, 2, 3, 4, 5]);
}

#[test]
fn private_tree_admits_creator_and_delegate_only() {
    let config = private_tree();
    assert_eq!(config.check_authority(&CREATOR), Ok(()));
    assert_eq!(config.check_authority(&DELEGATE), Ok(()));
    assert_eq!(
        config.check_authority(&STRANGER),
        Err(ParallelTreeError::TreeAuthorityIncorrect)
    );
    let mut nearly = CREATOR;
    nearly[31] = 0;
    assert_eq!(config.check_authority(&nearly), Err(ParallelTreeError::TreeAuthorityIncorrect));
}

#[test]
fn public_tree_admits_anyone() {
    let config = TreeConfig { tree_creator: CREATOR, tree_delegate: DELEGATE, is_public: true };
    assert_eq!(config.check_authority(&CREATOR), Ok(()));
    assert_eq!(config.check_authority(&STRANGER), Ok(()));
}

#[test]
fn new_tree_is_private_unless_made_public() {
    assert_eq!(
        create_parallel_tree(CREATOR, None),
        TreeConfig { tree_creator: CREATOR, tree_delegate: CREATOR, is_public: false }
    );
    assert_eq!(
        create_parallel_tree(CREATOR, Some(false)),
        TreeConfig { tree_creator: CREATOR, tree_delegate: CREATOR, is_public: false }
    );
    assert_eq!(
        create_parallel_tree(CREATOR, Some(true)),
        TreeConfig { tree_creator: CREATOR, tree_delegate: CREATOR, is_public: true }
    );
}

#[test]
fn modify_replaces_the_claimed_leaf_by_one_with_the_new_data_hash() {
    let accounts = modify_accounts(private_tree(), DELEGATE);
    let plan = modify_governance_metadata(&accounts, ROOT, 7, 3, [4; 32], &metadata()).unwrap();
    assert_eq!(plan.root, ROOT);
    assert_eq!(plan.index, 3);
    assert_eq!(
        plan.previous_leaf,
        [
            110, 187, 66, 36, 233, 176, 238, 79, 185, 175, 153, 237, 17, 22, 77, 85, 86, 80, 30,
            180, 200, 180, 231, 242, 216, 156, 14, 245, 110, 79, 96, 193
        ]
    );
    assert_eq!(
        plan.new_leaf,
        [
            74, 134, 147, 12, 40, 22, 121, 176, 231, 208, 107, 4, 241, 76, 51, 183, 149, 178, 218,
            162, 88, 8, 17, 56, 255, 220, 173, 20, 215, 252, 103, 13
        ]
    );
    assert_eq!(
        plan.previous_leaf,
        LeafSchema::new_v0(ASSET_ID, OWNER, LEAF_DELEGATE, 7, [4; 32]).to_node()
    );
    assert_eq!(
        plan.new_leaf,
        LeafSchema::new_v0(ASSET_ID, OWNER, LEAF_DELEGATE, 7, METADATA_HASH).to_node()
    );
}

#[test]
fn modify_on_private_tree_rejects_a_stranger() {
    let accounts = modify_accounts(private_tree(), STRANGER);
    assert_eq!(
        modify_governance_metadata(&accounts, ROOT, 7, 3, [4; 32], &metadata()),
        Err(ParallelTreeError::TreeAuthorityIncorrect)
    );
    let accounts = modify_accounts(private_tree(), CREATOR);
    assert!(modify_governance_metadata(&accounts, ROOT, 7, 3, [4; 32], &metadata()).is_ok());
}

#[test]
fn modify_on_public_tree_admits_a_stranger() {
    let config = TreeConfig { tree_creator: CREATOR, tree_delegate: DELEGATE, is_public: true };
    let accounts = modify_accounts(config, STRANGER);
    let by_stranger = modify_governance_metadata(&accounts, ROOT, 7, 3, [4; 32], &metadata());
    let by_delegate = modify_governance_metadata(
        &modify_accounts(private_tree(), DELEGATE),
        ROOT,
        7,
        3,
        [4; 32],
        &metadata(),
    );
    assert!(by_stranger.is_ok());
    assert_eq!(by_stranger, by_delegate);
}

#[test]
fn mint_replaces_the_empty_leaf() {
    let accounts = MintGovernanceMetadata {
        parallel_tree_authority: private_tree(),
        parallel_tree: TREE,
        leaf_owner: OWNER,
        leaf_delegate: LEAF_DELEGATE,
        tree_delegate: CREATOR,
    };
    let plan = mint_governance_metadata(&accounts, ROOT, 7, 3, &metadata()).unwrap();
    assert_eq!(EMPTY_DATA_HASH, [0u8; 32]);
    assert_eq!(plan.root, ROOT);
    assert_eq!(plan.index, 3);
    assert_eq!(
        plan.previous_leaf,
        LeafSchema::new_v0(ASSET_ID, OWNER, LEAF_DELEGATE, 7, EMPTY_DATA_HASH).to_node()
    );
    assert_eq!(
        plan.new_leaf,
        LeafSchema::new_v0(ASSET_ID, OWNER, LEAF_DELEGATE, 7, METADATA_HASH).to_node()
    );
    let refused = MintGovernanceMetadata { tree_delegate: STRANGER, ..accounts };
    assert_eq!(
        mint_governance_metadata(&refused, ROOT, 7, 3, &metadata()),
        Err(ParallelTreeError::TreeAuthorityIncorrect)
    );
}

#[test]
fn remove_leaves_the_empty_data_hash_behind() {
    let accounts = RemoveGovernanceMetadata {
        parallel_tree_authority: private_tree(),
        parallel_tree: TREE,
        leaf_owner: OWNER,
        leaf_delegate: LEAF_DELEGATE,
        tree_delegate: DELEGATE,
    };
    let plan =
        remove_governance_metadata(&accounts, ROOT, 7, 3, METADATA_HASH, ASSET_ID).unwrap();
    assert_eq!(plan.root, ROOT);
    assert_eq!(plan.index, 3);
    assert_eq!(
        plan.previous_leaf,
        LeafSchema::new_v0(ASSET_ID, OWNER, LEAF_DELEGATE, 7, METADATA_HASH).to_node()
    );
    assert_eq!(
        plan.new_leaf,
        LeafSchema::new_v0(ASSET_ID, OWNER, LEAF_DELEGATE, 7, EMPTY_DATA_HASH).to_node()
    );
    let refused = RemoveGovernanceMetadata { tree_delegate: STRANGER, ..accounts };
    assert_eq!(
        remove_governance_metadata(&refused, ROOT, 7, 3, METADATA_HASH, ASSET_ID),
        Err(ParallelTreeError::TreeAuthorityIncorrect)
    );
}

#[test]
fn a_written_leaf_is_the_previous_leaf_of_the_next_change() {
    let accounts = modify_accounts(private_tree(), DELEGATE);
    let first = modify_governance_metadata(&accounts, ROOT, 7, 3, [4; 32], &metadata()).unwrap();
    let later = GovernanceMetadata {
        compressed_nft: b"asset".to_vec(),
        encoded: b"later metadata".to_vec(),
    };
    let second =
        modify_governance_metadata(&accounts, [41; 32], 7, 3, METADATA_HASH, &later).unwrap();
    assert_eq!(second.previous_leaf, first.new_leaf);
    assert_ne!(second.new_leaf, first.new_leaf);

    let minted = mint_governance_metadata(
        &MintGovernanceMetadata {
            parallel_tree_authority: private_tree(),
            parallel_tree: TREE,
            leaf_owner: OWNER,
            leaf_delegate: LEAF_DELEGATE,
            tree_delegate: DELEGATE,
        },
        ROOT,
        7,
        3,
        &metadata(),
    )
    .unwrap();
    let removed = remove_governance_metadata(
        &RemoveGovernanceMetadata {
            parallel_tree_authority: private_tree(),
            parallel_tree: TREE,
            leaf_owner: OWNER,
            leaf_delegate: LEAF_DELEGATE,
            tree_delegate: DELEGATE,
        },
        [42; 32],
        7,
        3,
        METADATA_HASH,
        ASSET_ID,
    )
    .unwrap();
    assert_eq!(removed.previous_leaf, minted.new_leaf);
    assert_eq!(removed.new_leaf, minted.previous_leaf);
}

#[test]
fn mutation_verifies_then_replaces() {
    let (mutation, call) = LeafMutation::begin(replacement());
    assert_eq!(mutation.state, MutationState::Pending);
    assert_eq!(call, ServiceCall::VerifyLeaf { root: ROOT, leaf: [1; 32], index: 6 });
    assert_eq!(mutation.next_call(), call);

    let (mutation, call) = mutation.advance(true);
    assert_eq!(mutation.state, MutationState::Verified);
    assert_eq!(
        call,
        ServiceCall::ReplaceLeaf {
            root: ROOT,
            previous_leaf: [1; 32],
            new_leaf: [2; 32],
            index: 6
        }
    );

    let (mutation, call) = mutation.advance(true);
    assert_eq!(mutation.state, MutationState::Replaced);
    assert_eq!(call, ServiceCall::Nothing);
    assert_eq!(mutation.replacement, replacement());

    let (mutation, call) = mutation.advance(false);
    assert_eq!(mutation.state, MutationState::Replaced);
    assert_eq!(call, ServiceCall::Nothing);
}

#[test]
fn failed_verification_rejects_without_replacing() {
    let (mutation, _) = LeafMutation::begin(replacement());
    let (mutation, call) = mutation.advance(false);
    assert_eq!(mutation.state, MutationState::Rejected);
    assert_eq!(call, ServiceCall::Nothing);
    assert_eq!(mutation.replacement, replacement());

    let (mutation, call) = mutation.advance(true);
    assert_eq!(mutation.state, MutationState::Rejected);
    assert_eq!(call, ServiceCall::Nothing);
}

#[test]
fn failed_replacement_rejects() {
    let (mutation, _) = LeafMutation::begin(replacement());
    let (mutation, _) = mutation.advance(true);
    let (mutation, call) = mutation.advance(false);
    assert_eq!(mutation.state, MutationState::Rejected);
    assert_eq!(call, ServiceCall::Nothing);
}
