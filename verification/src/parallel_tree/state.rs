use vstd::prelude::*;
use crate::errors::ParallelTreeError;
use crate::bytes::{append_bytes, le_bytes_u64, u64_to_le_bytes};
use crate::hash::{keccak256, keccak_hash};
use crate::pubkey::{pubkey_eq, Pubkey};

verus! {

/// Who may change the leaves of one tree.
#[derive(Clone, Copy, Debug, PartialEq, Eq)]
pub struct TreeConfig {
    /// Address that created the tree.
    pub tree_creator: Pubkey,
    /// Address that the creator lets act in its place.
    pub tree_delegate: Pubkey,
    /// Whether anyone may change leaves.
    pub is_public: bool,
}

impl TreeConfig {
    /// Tells whether `signer` may change a leaf: on a public tree anyone may,
    /// on a private one only the creator and the delegate.
    pub open spec fn authorizes(&self, signer: Pubkey) -> bool {
        self.is_public || signer@ == self.tree_creator@ || signer@ == self.tree_delegate@
    }

    /// Checks that `signer` may change a leaf of this tree.
    pub fn check_authority(&self, signer: &Pubkey) -> (result: Result<(), ParallelTreeError>)
        ensures
            result is Ok <==> self.authorizes(*signer),
            result is Err ==> result == Err::<(), ParallelTreeError>(
                ParallelTreeError::TreeAuthorityIncorrect,
            ),
    {
        if !self.is_public {
            if !(pubkey_eq(signer, &self.tree_creator) || pubkey_eq(signer, &self.tree_delegate)) {
                return Err(ParallelTreeError::TreeAuthorityIncorrect);
            }
        }
        Ok(())
    }
}

/// The record behind one leaf of a tree. Only its hash, the node, is stored
/// in the tree.
#[derive(Clone, Copy, Debug, PartialEq, Eq)]
pub struct LeafSchema {
    /// Identifier of the asset the leaf stands for.
    pub id: Pubkey,
    /// Owner of the asset.
    pub owner: Pubkey,
    /// Address the owner lets act in its place.
    pub delegate: Pubkey,
    /// Sequence number that tells leaves of equal content apart.
    pub nonce: u64,
    /// Hash of the metadata kept off chain.
    pub data_hash: [u8; 32],
}

/// The byte string that is hashed into a leaf's node: asset identifier,
/// owner, delegate, the nonce lowest byte first, and the data hash, in this
/// order.
pub open spec fn leaf_preimage(
    id: Seq<u8>,
    owner: Seq<u8>,
    delegate: Seq<u8>,
    nonce: u64,
    data_hash: Seq<u8>,
) -> Seq<u8> {
    id + owner + delegate + le_bytes_u64(nonce) + data_hash
}

/// The node of a leaf: the Keccak-256 digest of its preimage.
pub open spec fn leaf_node(
    id: Seq<u8>,
    owner: Seq<u8>,
    delegate: Seq<u8>,
    nonce: u64,
    data_hash: Seq<u8>,
) -> Seq<u8> {
    keccak256(leaf_preimage(id, owner, delegate, nonce, data_hash))
}

impl LeafSchema {
    /// Builds the record of a leaf from its parts.
    pub fn new_v0(id: Pubkey, owner: Pubkey, delegate: Pubkey, nonce: u64, data_hash: [u8; 32]) -> (leaf:
        LeafSchema)
        ensures
            leaf == (LeafSchema { id, owner, delegate, nonce, data_hash }),
    {
        LeafSchema { id, owner, delegate, nonce, data_hash }
    }

    /// The node that stands for this leaf in the tree.
    pub open spec fn node(&self) -> Seq<u8> {
        leaf_node(self.id@, self.owner@, self.delegate@, self.nonce, self.data_hash@)
    }

    /// Hashes the leaf into its node.
    pub fn to_node(&self) -> (node: [u8; 32])
        ensures
            node@ == self.node(),
    {
        let mut preimage: Vec<u8> = Vec::new();
        append_bytes(&mut preimage, self.id.as_slice());
        append_bytes(&mut preimage, self.owner.as_slice());
        append_bytes(&mut preimage, self.delegate.as_slice());
        let nonce_bytes: [u8; 8] = u64_to_le_bytes(self.nonce);
        append_bytes(&mut preimage, nonce_bytes.as_slice());
        append_bytes(&mut preimage, self.data_hash.as_slice());
        assert(preimage@ =~= leaf_preimage(
            self.id@,
            self.owner@,
            self.delegate@,
            self.nonce,
            self.data_hash@,
        ));
        keccak_hash(preimage.as_slice())
    }
}

/// The identifier of an asset within a tree: the Keccak-256 digest of the
/// tree's address followed by the payload that names the asset.
pub open spec fn parallel_asset_id(parallel_tree: Seq<u8>, payload: Seq<u8>) -> Seq<u8> {
    keccak256(parallel_tree + payload)
}

/// Derives the identifier of an asset from the tree's address and the
/// payload that names the asset. It does not depend on where in the tree the
/// leaf sits.
pub fn get_parallel_asset_id(parallel_tree: &Pubkey, payload: &[u8]) -> (id: Pubkey)
    ensures
        id@ == parallel_asset_id(parallel_tree@, payload@),
{
    let mut preimage: Vec<u8> = Vec::new();
    append_bytes(&mut preimage, parallel_tree.as_slice());
    append_bytes(&mut preimage, payload);
    assert(preimage@ =~= parallel_tree@ + payload@);
    keccak_hash(preimage.as_slice())
}

} // verus!
