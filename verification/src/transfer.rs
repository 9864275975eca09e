//! Orders to the transfer service, and what becomes of an operation once
//! the service has answered.
//!
//! The ledger never moves tokens itself. An operation that moves tokens
//! hands back a [`Pending`]: the transfer to make, the state to adopt if the
//! transfer goes through, and the event to publish then. The caller makes
//! the transfer and calls [`settle`] with the answer.

use vstd::prelude::*;
use crate::custody::{vault_seeds, vault_tag_bytes};
use crate::error::ErrorCode;
use crate::pubkey::Pubkey;

verus! {

/// The seeds that show the right to act as a vault's authority.
#[derive(Clone, Copy, Debug, PartialEq, Eq)]
pub struct VaultSigner {
    pub mint: Pubkey,
    pub bump: u8,
}

/// One movement of tokens between two token accounts.
#[derive(Clone, Copy, Debug, PartialEq, Eq)]
pub struct Transfer {
    pub from: Pubkey,
    pub to: Pubkey,
    /// Who authorizes the movement: the sender itself on the way into a
    /// vault, the vault's derived authority on the way out.
    pub authority: Pubkey,
    pub amount: u64,
    /// Set exactly where `authority` is a derived vault authority.
    pub signer: Option<VaultSigner>,
}

/// The transfer service's answer.
#[derive(Clone, Copy, Debug, PartialEq, Eq, Structural)]
pub enum TransferOutcome {
    Completed,
    Rejected,
}

/// An operation that waits for its transfer.
#[derive(Debug, PartialEq, Eq)]
pub struct Pending<S, E> {
    pub transfer: Transfer,
    /// The state once the transfer has gone through.
    pub next: S,
    pub event: E,
}

impl VaultSigner {
    /// The vault seeds followed by the bump seed.
    pub open spec fn spec_seeds(&self) -> Seq<Seq<u8>> {
        vault_seeds(self.mint@).push(seq![self.bump])
    }

    /// The signer seeds to present with an outbound transfer.
    pub fn seeds(&self) -> (res: Vec<Vec<u8>>)
        ensures
            res@.len() == 3,
            forall|i: int| 0 <= i < 3 ==> (#[trigger] res@[i])@ == self.spec_seeds()[i],
    {
        let mut bump: Vec<u8> = Vec::new();
        bump.push(self.bump);
        let mut out: Vec<Vec<u8>> = Vec::new();
        out.push(vault_tag_bytes());
        out.push(self.mint.to_vec());
        out.push(bump);
        assert(out@[2]@ =~= self.spec_seeds()[2]);
        out
    }
}

/// Finishes an operation: adopts the pending state and hands out the event
/// if the transfer went through, and otherwise leaves the state as it was
/// and fails with `TransferFailed`.
pub fn settle<S, E>(state: &mut S, pending: Pending<S, E>, outcome: TransferOutcome) -> (res:
    Result<E, ErrorCode>)
    ensures
        outcome == TransferOutcome::Completed ==> *final(state) == pending.next && res == Ok::<
            E,
            ErrorCode,
        >(pending.event),
        outcome == TransferOutcome::Rejected ==> *final(state) == *old(state) && res == Err::<
            E,
            ErrorCode,
        >(ErrorCode::TransferFailed),
{
    match outcome {
        TransferOutcome::Completed => {
            *state = pending.next;
            Ok(pending.event)
        },
        TransferOutcome::Rejected => Err(ErrorCode::TransferFailed),
    }
}

} // verus!
