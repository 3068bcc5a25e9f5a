use vstd::prelude::*;
use crate::errors::ParallelTreeError;
use crate::hash::{keccak256, keccak_hash};
use crate::parallel_tree::mutation::{LeafMutation, LeafReplacement, MutationState, ServiceCall};
use crate::parallel_tree::state::{
    get_parallel_asset_id, leaf_node, parallel_asset_id, LeafSchema, TreeConfig,
};
use crate::pubkey::Pubkey;

verus! {

/// Data hash of a leaf that holds no metadata.
pub const EMPTY_DATA_HASH: [u8; 32] = [
    0, 0, 0, 0, 0, 0, 0, 0,
    0, 0, 0, 0, 0, 0, 0, 0,
    0, 0, 0, 0, 0, 0, 0, 0,
    0, 0, 0, 0, 0, 0, 0, 0,
];

/// The metadata that a leaf commits to. The tree keeps its hash only.
#[derive(Clone, Debug, PartialEq, Eq)]
pub struct GovernanceMetadata {
    /// Reference to the compressed asset that the metadata belongs to. With
    /// the tree's address it determines the asset's identifier.
    pub compressed_nft: Vec<u8>,
    /// The canonical byte encoding of the whole metadata record, this
    /// reference included.
    pub encoded: Vec<u8>,
}

impl GovernanceMetadata {
    /// The hash that a leaf holding this metadata stores: the Keccak-256
    /// digest of its encoding.
    pub open spec fn data_hash(&self) -> Seq<u8> {
        keccak256(self.encoded@)
    }

    /// The identifier, within `parallel_tree`, of the asset this metadata
    /// belongs to.
    pub open spec fn asset_id(&self, parallel_tree: Pubkey) -> Seq<u8> {
        parallel_asset_id(parallel_tree@, self.compressed_nft@)
    }
}

/// The accounts that a change of a leaf's metadata works on, as plain
/// values.
#[derive(Clone, Copy, Debug, PartialEq, Eq)]
pub struct ModifyGovernanceMetadata {
    /// Configuration of the tree.
    pub parallel_tree_authority: TreeConfig,
    /// Address of the tree.
    pub parallel_tree: Pubkey,
    /// Owner of the leaf.
    pub leaf_owner: Pubkey,
    /// Delegate of the leaf.
    pub leaf_delegate: Pubkey,
    /// Address that signed the request.
    pub tree_delegate: Pubkey,
}

/// The accounts that the first writing of a leaf's metadata works on.
#[derive(Clone, Copy, Debug, PartialEq, Eq)]
pub struct MintGovernanceMetadata {
    /// Configuration of the tree.
    pub parallel_tree_authority: TreeConfig,
    /// Address of the tree.
    pub parallel_tree: Pubkey,
    /// Owner of the leaf.
    pub leaf_owner: Pubkey,
    /// Delegate of the leaf.
    pub leaf_delegate: Pubkey,
    /// Address that signed the request.
    pub tree_delegate: Pubkey,
}

/// The accounts that the removal of a leaf's metadata works on.
#[derive(Clone, Copy, Debug, PartialEq, Eq)]
pub struct RemoveGovernanceMetadata {
    /// Configuration of the tree.
    pub parallel_tree_authority: TreeConfig,
    /// Address of the tree.
    pub parallel_tree: Pubkey,
    /// Owner of the leaf.
    pub leaf_owner: Pubkey,
    /// Delegate of the leaf.
    pub leaf_delegate: Pubkey,
    /// Address that signed the request.
    pub tree_delegate: Pubkey,
}

/// The replacement that swaps the data hash of one leaf: both nodes are
/// those of the same asset, owner, delegate and nonce, the previous one with
/// `previous_data_hash` and the new one with `new_data_hash`.
pub open spec fn data_hash_replacement(
    replacement: LeafReplacement,
    root: [u8; 32],
    index: u32,
    asset_id: Seq<u8>,
    leaf_owner: Pubkey,
    leaf_delegate: Pubkey,
    nonce: u64,
    previous_data_hash: Seq<u8>,
    new_data_hash: Seq<u8>,
) -> bool {
    &&& replacement.root == root
    &&& replacement.index == index
    &&& replacement.previous_leaf@ == leaf_node(
        asset_id,
        leaf_owner@,
        leaf_delegate@,
        nonce,
        previous_data_hash,
    )
    &&& replacement.new_leaf@ == leaf_node(
        asset_id,
        leaf_owner@,
        leaf_delegate@,
        nonce,
        new_data_hash,
    )
}

/// Builds the replacement that swaps the data hash of one leaf.
fn replace_data_hash(
    root: [u8; 32],
    index: u32,
    asset_id: Pubkey,
    leaf_owner: Pubkey,
    leaf_delegate: Pubkey,
    nonce: u64,
    previous_data_hash: [u8; 32],
    new_data_hash: [u8; 32],
) -> (replacement: LeafReplacement)
    ensures
        data_hash_replacement(
            replacement,
            root,
            index,
            asset_id@,
            leaf_owner,
            leaf_delegate,
            nonce,
            previous_data_hash@,
            new_data_hash@,
        ),
{
    let previous_leaf: LeafSchema = LeafSchema::new_v0(
        asset_id,
        leaf_owner,
        leaf_delegate,
        nonce,
        previous_data_hash,
    );
    let new_leaf: LeafSchema = LeafSchema::new_v0(
        asset_id,
        leaf_owner,
        leaf_delegate,
        nonce,
        new_data_hash,
    );
    LeafReplacement {
        root,
        previous_leaf: previous_leaf.to_node(),
        new_leaf: new_leaf.to_node(),
        index,
    }
}

/// Sets up the configuration of a new tree: the creator is its own delegate,
/// and the tree is private unless `public` says otherwise.
pub fn create_parallel_tree(tree_creator: Pubkey, public: Option<bool>) -> (config: TreeConfig)
    ensures
        config == (TreeConfig {
            tree_creator,
            tree_delegate: tree_creator,
            is_public: public == Some(true),
        }),
{
    let is_public: bool = match public {
        Some(flag) => flag,
        None => false,
    };
    TreeConfig { tree_creator, tree_delegate: tree_creator, is_public }
}

/// Prepares the first writing of a leaf's metadata.
///
/// The leaf is claimed to hold the empty data hash so far, and is to hold
/// the hash of `message`.
pub fn mint_governance_metadata(
    accounts: &MintGovernanceMetadata,
    root: [u8; 32],
    nonce: u64,
    index: u32,
    message: &GovernanceMetadata,
) -> (result: Result<LeafReplacement, ParallelTreeError>)
    ensures
        result is Ok <==> accounts.parallel_tree_authority.authorizes(accounts.tree_delegate),
        result is Err ==> result == Err::<LeafReplacement, ParallelTreeError>(
            ParallelTreeError::TreeAuthorityIncorrect,
        ),
        result is Ok ==> data_hash_replacement(
            result->Ok_0,
            root,
            index,
            message.asset_id(accounts.parallel_tree),
            accounts.leaf_owner,
            accounts.leaf_delegate,
            nonce,
            EMPTY_DATA_HASH@,
            message.data_hash(),
        ),
{
    match accounts.parallel_tree_authority.check_authority(&accounts.tree_delegate) {
        Err(e) => {
            return Err(e);
        },
        Ok(()) => {},
    }
    let asset_id: Pubkey = get_parallel_asset_id(
        &accounts.parallel_tree,
        message.compressed_nft.as_slice(),
    );
    let data_hash: [u8; 32] = keccak_hash(message.encoded.as_slice());
    Ok(
        replace_data_hash(
            root,
            index,
            asset_id,
            accounts.leaf_owner,
            accounts.leaf_delegate,
            nonce,
            EMPTY_DATA_HASH,
            data_hash,
        ),
    )
}

/// Prepares a change of a leaf's metadata.
///
/// The leaf is claimed to hold `data_hash` so far, and is to hold the hash
/// of `message`. On a private tree only the creator and the delegate may ask
/// for this.
pub fn modify_governance_metadata(
    accounts: &ModifyGovernanceMetadata,
    root: [u8; 32],
    nonce: u64,
    index: u32,
    data_hash: [u8; 32],
    message: &GovernanceMetadata,
) -> (result: Result<LeafReplacement, ParallelTreeError>)
    ensures
        result is Ok <==> accounts.parallel_tree_authority.authorizes(accounts.tree_delegate),
        result is Err ==> result == Err::<LeafReplacement, ParallelTreeError>(
            ParallelTreeError::TreeAuthorityIncorrect,
        ),
        result is Ok ==> data_hash_replacement(
            result->Ok_0,
            root,
            index,
            message.asset_id(accounts.parallel_tree),
            accounts.leaf_owner,
            accounts.leaf_delegate,
            nonce,
            data_hash@,
            message.data_hash(),
        ),
{
    match accounts.parallel_tree_authority.check_authority(&accounts.tree_delegate) {
        Err(e) => {
            return Err(e);
        },
        Ok(()) => {},
    }
    let asset_id: Pubkey = get_parallel_asset_id(
        &accounts.parallel_tree,
        message.compressed_nft.as_slice(),
    );
    let new_data_hash: [u8; 32] = keccak_hash(message.encoded.as_slice());
    Ok(
        replace_data_hash(
            root,
            index,
            asset_id,
            accounts.leaf_owner,
            accounts.leaf_delegate,
            nonce,
            data_hash,
            new_data_hash,
        ),
    )
}

/// Prepares the removal of a leaf's metadata.
///
/// The leaf of `asset_id` is claimed to hold `data_hash` so far, and is to
/// hold the empty data hash.
pub fn remove_governance_metadata(
    accounts: &RemoveGovernanceMetadata,
    root: [u8; 32],
    nonce: u64,
    index: u32,
    data_hash: [u8; 32],
    asset_id: Pubkey,
) -> (result: Result<LeafReplacement, ParallelTreeError>)
    ensures
        result is Ok <==> accounts.parallel_tree_authority.authorizes(accounts.tree_delegate),
        result is Err ==> result == Err::<LeafReplacement, ParallelTreeError>(
            ParallelTreeError::TreeAuthorityIncorrect,
        ),
        result is Ok ==> data_hash_replacement(
            result->Ok_0,
            root,
            index,
            asset_id@,
            accounts.leaf_owner,
            accounts.leaf_delegate,
            nonce,
            data_hash@,
            EMPTY_DATA_HASH@,
        ),
{
    match accounts.parallel_tree_authority.check_authority(&accounts.tree_delegate) {
        Err(e) => {
            return Err(e);
        },
        Ok(()) => {},
    }
    Ok(
        replace_data_hash(
            root,
            index,
            asset_id,
            accounts.leaf_owner,
            accounts.leaf_delegate,
            nonce,
            data_hash,
            EMPTY_DATA_HASH,
        ),
    )
}

/// The node that one change of a leaf puts in place is the node that the
/// next change of that leaf has to claim as the previous one: whoever names
/// the data hash just written, for the same asset, owner, delegate and
/// nonce, names the node that now sits in the tree, and the next request
/// opens by asking the tree service to verify exactly that node.
pub proof fn lemma_replacements_chain(
    first: LeafReplacement,
    second: LeafReplacement,
    first_root: [u8; 32],
    second_root: [u8; 32],
    index: u32,
    asset_id: Seq<u8>,
    leaf_owner: Pubkey,
    leaf_delegate: Pubkey,
    nonce: u64,
    earlier_data_hash: Seq<u8>,
    written_data_hash: Seq<u8>,
    later_data_hash: Seq<u8>,
)
    requires
        data_hash_replacement(
            first,
            first_root,
            index,
            asset_id,
            leaf_owner,
            leaf_delegate,
            nonce,
            earlier_data_hash,
            written_data_hash,
        ),
        data_hash_replacement(
            second,
            second_root,
            index,
            asset_id,
            leaf_owner,
            leaf_delegate,
            nonce,
            written_data_hash,
            later_data_hash,
        ),
    ensures
        second.previous_leaf == first.new_leaf,
        second.index == first.index,
        LeafMutation::call_in(MutationState::Pending, second) == (ServiceCall::VerifyLeaf {
            root: second_root,
            leaf: first.new_leaf,
            index,
        }),
{
    assert(second.previous_leaf =~= first.new_leaf);
}

} // verus!
