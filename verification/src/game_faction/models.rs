//! Proposals of the faction DAO and the votes cast on them.

use vstd::prelude::*;
use crate::store::copy_bytes;

verus! {

/// How a member votes on a proposal.
#[derive(Clone, Copy, Debug, PartialEq, Eq, Structural)]
pub enum VoteType {
    AbstainVote,
    UpVote,
    DownVote,
}

/// Where a proposal stands.
#[derive(Clone, Copy, Debug, PartialEq, Eq, Structural)]
pub enum ProposalStatus {
    Pending,
    Failed,
    Succeeded,
}

/// A proposal and its tally. The tallies are stake-weighted; `votes` counts
/// the ballots, the proposer's included.
#[derive(Debug, PartialEq, Eq)]
pub struct DaoItem {
    pub id: u32,
    pub owner: Vec<u8>,
    pub deadline: u64,
    pub proposal: Vec<u8>,
    pub proposal_type: Vec<u8>,
    pub args: Vec<u8>,
    pub up_votes: u128,
    pub down_votes: u128,
    pub abstain_votes: u128,
    pub votes: u32,
    pub status: ProposalStatus,
}

/// A proposal, as values.
pub struct DaoItemView {
    pub id: u32,
    pub owner: Seq<u8>,
    pub deadline: u64,
    pub proposal: Seq<u8>,
    pub proposal_type: Seq<u8>,
    pub args: Seq<u8>,
    pub up_votes: u128,
    pub down_votes: u128,
    pub abstain_votes: u128,
    pub votes: u32,
    pub status: ProposalStatus,
}

impl View for DaoItem {
    type V = DaoItemView;

    open spec fn view(&self) -> DaoItemView {
        DaoItemView {
            id: self.id,
            owner: self.owner@,
            deadline: self.deadline,
            proposal: self.proposal@,
            proposal_type: self.proposal_type@,
            args: self.args@,
            up_votes: self.up_votes,
            down_votes: self.down_votes,
            abstain_votes: self.abstain_votes,
            votes: self.votes,
            status: self.status,
        }
    }
}

impl DaoItem {
    /// A copy of this proposal.
    pub fn duplicate(&self) -> (r: Self)
        ensures
            r@ == self@,
    {
        DaoItem {
            id: self.id,
            owner: copy_bytes(&self.owner),
            deadline: self.deadline,
            proposal: copy_bytes(&self.proposal),
            proposal_type: copy_bytes(&self.proposal_type),
            args: copy_bytes(&self.args),
            up_votes: self.up_votes,
            down_votes: self.down_votes,
            abstain_votes: self.abstain_votes,
            votes: self.votes,
            status: self.status,
        }
    }
}

} // verus!
