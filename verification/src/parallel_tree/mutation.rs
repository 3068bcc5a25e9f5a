use vstd::prelude::*;

verus! {

/// A request to put one node in place of another at one position of a tree.
#[derive(Clone, Copy, Debug, PartialEq, Eq)]
pub struct LeafReplacement {
    /// Root that the caller claims the tree has.
    pub root: [u8; 32],
    /// Node that the caller claims to sit at `index` now.
    pub previous_leaf: [u8; 32],
    /// Node to put there.
    pub new_leaf: [u8; 32],
    /// Position of the leaf in the tree.
    pub index: u32,
}

/// How far a replacement has come.
#[derive(Clone, Copy, Debug, PartialEq, Eq)]
pub enum MutationState {
    /// Nothing has been confirmed yet.
    Pending,
    /// The tree service has confirmed the claimed root and previous node.
    Verified,
    /// The tree service has put the new node in place.
    Replaced,
    /// The tree service has refused a call. The tree is as it was.
    Rejected,
}

/// What to ask of the tree service next.
#[derive(Clone, Copy, Debug, PartialEq, Eq)]
pub enum ServiceCall {
    /// Ask it to confirm that `leaf` sits at `index` under `root`.
    VerifyLeaf { root: [u8; 32], leaf: [u8; 32], index: u32 },
    /// Ask it to put `new_leaf` in place of `previous_leaf` at `index` under
    /// `root`, signed by the tree's derived authority.
    ReplaceLeaf { root: [u8; 32], previous_leaf: [u8; 32], new_leaf: [u8; 32], index: u32 },
    /// Ask nothing: the request has ended.
    Nothing,
}

/// A replacement on its way through the two calls that carry it out: first
/// the claimed previous node is verified, and only then is it replaced.
///
/// The caller performs each `ServiceCall` and reports with `advance` how the
/// service answered.
#[derive(Clone, Copy, Debug, PartialEq, Eq)]
pub struct LeafMutation {
    /// How far the request has come.
    pub state: MutationState,
    /// What the request asks for.
    pub replacement: LeafReplacement,
}

impl LeafMutation {
    /// The call that a request in `state` waits for.
    pub open spec fn call_in(state: MutationState, replacement: LeafReplacement) -> ServiceCall {
        match state {
            MutationState::Pending => ServiceCall::VerifyLeaf {
                root: replacement.root,
                leaf: replacement.previous_leaf,
                index: replacement.index,
            },
            MutationState::Verified => ServiceCall::ReplaceLeaf {
                root: replacement.root,
                previous_leaf: replacement.previous_leaf,
                new_leaf: replacement.new_leaf,
                index: replacement.index,
            },
            MutationState::Replaced => ServiceCall::Nothing,
            MutationState::Rejected => ServiceCall::Nothing,
        }
    }

    /// The state that follows `state` once the service has answered the call
    /// that `state` waited for. A request that has ended stays as it is.
    pub open spec fn state_after(state: MutationState, accepted: bool) -> MutationState {
        match state {
            MutationState::Pending => if accepted {
                MutationState::Verified
            } else {
                MutationState::Rejected
            },
            MutationState::Verified => if accepted {
                MutationState::Replaced
            } else {
                MutationState::Rejected
            },
            MutationState::Replaced => MutationState::Replaced,
            MutationState::Rejected => MutationState::Rejected,
        }
    }

    /// The call that this request waits for.
    pub open spec fn pending_call(&self) -> ServiceCall {
        LeafMutation::call_in(self.state, self.replacement)
    }

    /// Opens a request. Its first call asks the service to verify the
    /// previous node.
    pub fn begin(replacement: LeafReplacement) -> (started: (LeafMutation, ServiceCall))
        ensures
            started.0 == (LeafMutation { state: MutationState::Pending, replacement }),
            started.1 == started.0.pending_call(),
            started.1 == (ServiceCall::VerifyLeaf {
                root: replacement.root,
                leaf: replacement.previous_leaf,
                index: replacement.index,
            }),
    {
        let mutation: LeafMutation = LeafMutation { state: MutationState::Pending, replacement };
        let call: ServiceCall = mutation.next_call();
        (mutation, call)
    }

    /// The call to perform next.
    pub fn next_call(&self) -> (call: ServiceCall)
        ensures
            call == self.pending_call(),
    {
        match self.state {
            MutationState::Pending => ServiceCall::VerifyLeaf {
                root: self.replacement.root,
                leaf: self.replacement.previous_leaf,
                index: self.replacement.index,
            },
            MutationState::Verified => ServiceCall::ReplaceLeaf {
                root: self.replacement.root,
                previous_leaf: self.replacement.previous_leaf,
                new_leaf: self.replacement.new_leaf,
                index: self.replacement.index,
            },
            MutationState::Replaced => ServiceCall::Nothing,
            MutationState::Rejected => ServiceCall::Nothing,
        }
    }

    /// Takes the service's answer to the pending call. Returns the request
    /// in its next state, and the call to perform next.
    pub fn advance(self, accepted: bool) -> (next: (LeafMutation, ServiceCall))
        ensures
            next.0.replacement == self.replacement,
            next.0.state == LeafMutation::state_after(self.state, accepted),
            next.1 == next.0.pending_call(),
    {
        let state: MutationState = match self.state {
            MutationState::Pending => if accepted {
                MutationState::Verified
            } else {
                MutationState::Rejected
            },
            MutationState::Verified => if accepted {
                MutationState::Replaced
            } else {
                MutationState::Rejected
            },
            MutationState::Replaced => MutationState::Replaced,
            MutationState::Rejected => MutationState::Rejected,
        };
        let mutation: LeafMutation = LeafMutation { state, replacement: self.replacement };
        let call: ServiceCall = mutation.next_call();
        (mutation, call)
    }
}

/// A replacement is asked for only after the service has verified the
/// previous node, and then for exactly the nodes, root and index of the
/// request.
pub proof fn lemma_replace_only_after_verify(state: MutationState, replacement: LeafReplacement, accepted: bool)
    ensures
        LeafMutation::call_in(LeafMutation::state_after(state, accepted), replacement)
            is ReplaceLeaf <==> state == MutationState::Pending && accepted,
        LeafMutation::call_in(LeafMutation::state_after(state, accepted), replacement)
            is ReplaceLeaf ==> LeafMutation::call_in(
            LeafMutation::state_after(state, accepted),
            replacement,
        ) == (ServiceCall::ReplaceLeaf {
            root: replacement.root,
            previous_leaf: replacement.previous_leaf,
            new_leaf: replacement.new_leaf,
            index: replacement.index,
        }),
{
}

/// A refused call ends the request as rejected, and a rejected request asks
/// for nothing more, whatever is reported to it: the tree stays as it was.
pub proof fn lemma_rejection_is_final(state: MutationState, replacement: LeafReplacement, accepted: bool)
    ensures
        (state == MutationState::Pending || state == MutationState::Verified) && !accepted
            ==> LeafMutation::state_after(state, accepted) == MutationState::Rejected,
        LeafMutation::state_after(MutationState::Rejected, accepted) == MutationState::Rejected,
        LeafMutation::call_in(MutationState::Rejected, replacement) == ServiceCall::Nothing,
{
}

/// The state `Replaced` is reached only from `Verified`, by an accepted
/// call.
pub proof fn lemma_replaced_only_from_verified(state: MutationState, accepted: bool)
    requires
        state != MutationState::Replaced,
    ensures
        LeafMutation::state_after(state, accepted) == MutationState::Replaced <==> state
            == MutationState::Verified && accepted,
{
}

} // verus!
