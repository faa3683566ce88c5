//! A dispute-resolution engine for an escrow marketplace: the arbitration state
//! machine, the staked juror registry that staffs it, the project escrow it rules on
//! and the ledger it settles against, with contracts that Verus proves.

pub mod arbitration;
pub mod bounded;
pub mod chain_spec;
pub mod ledger;
pub mod permill;
pub mod primitives;
pub mod projects;
pub mod reputation;
pub mod scale;
pub mod seqs;

use vstd::prelude::*;

verus! {

/// Why a command was refused.
#[derive(Clone, Copy, PartialEq, Eq, Debug, Structural)]
pub enum DispatchError {
    /// The origin is not one that may send the command.
    BadOrigin,
    /// The ledger could not move the value.
    Ledger(primitives::LedgerError),
    /// The project escrow refused.
    Projects(projects::Error),
    /// The juror registry or the reputation store refused.
    Reputation(reputation::Error),
    /// The arbitration refused.
    Arbitration(arbitration::Error),
    /// A refusal that carries no more than a message for the sender.
    Other,
}

/// What a command reports of its success.
#[derive(PartialEq, Eq, Debug)]
pub enum RuntimeEvent {
    /// An event of the project escrow.
    Projects(projects::Event),
    /// An event of the juror registry or the reputation store.
    Reputation(reputation::Event),
    /// An event of the arbitration.
    Arbitration(arbitration::Event),
}

} // verus!
