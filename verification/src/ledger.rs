//! What a call asks of the ledger. The arena moves no value itself: it hands
//! these requests to its host, and the call stands only if the ledger carries
//! all of them out.

use vstd::prelude::*;

verus! {

/// Request to create an account that holds `lamports` and `space` bytes of
/// data, belongs to `owner`, and is signed for with `signer_seeds`.
#[derive(Clone, Debug, PartialEq, Eq)]
pub struct AccountCreation {
    pub lamports: u64,
    pub space: u64,
    pub owner: [u8; 32],
    pub signer_seeds: Vec<Vec<u8>>,
}

/// Request to move `lamports` out of a round's escrow account into the
/// treasury, signed for with `signer_seeds`.
#[derive(Clone, Debug, PartialEq, Eq)]
pub struct Sweep {
    pub lamports: u64,
    pub signer_seeds: Vec<Vec<u8>>,
}

/// What a stake asks of the ledger: first to open the round's escrow account
/// if it does not exist yet, then to move `deposit` from the staker into it.
#[derive(Clone, Debug, PartialEq, Eq)]
pub struct StakeOrder {
    pub opening: Option<AccountCreation>,
    pub deposit: u64,
}

/// An [`AccountCreation`] as plain values.
pub struct AccountCreationView {
    pub lamports: u64,
    pub space: u64,
    pub owner: Seq<u8>,
    pub signer_seeds: Seq<Seq<u8>>,
}

/// A [`Sweep`] as plain values.
pub struct SweepView {
    pub lamports: u64,
    pub signer_seeds: Seq<Seq<u8>>,
}

/// A [`StakeOrder`] as plain values.
pub struct StakeOrderView {
    pub opening: Option<AccountCreationView>,
    pub deposit: u64,
}

impl View for AccountCreation {
    type V = AccountCreationView;

    open spec fn view(&self) -> AccountCreationView {
        AccountCreationView {
            lamports: self.lamports,
            space: self.space,
            owner: self.owner@,
            signer_seeds: self.signer_seeds.deep_view(),
        }
    }
}

impl View for Sweep {
    type V = SweepView;

    open spec fn view(&self) -> SweepView {
        SweepView { lamports: self.lamports, signer_seeds: self.signer_seeds.deep_view() }
    }
}

impl View for StakeOrder {
    type V = StakeOrderView;

    open spec fn view(&self) -> StakeOrderView {
        StakeOrderView {
            opening: match self.opening {
                Some(creation) => Some(creation@),
                None => None,
            },
            deposit: self.deposit,
        }
    }
}

} // verus!
