//! Escrow-backed peer-to-peer trade settlement with jury-based dispute
//! resolution.
//!
//! A seller locks a ledger asset into a per-offer escrow vault and trades it
//! against an off-ledger ("fiat") payment. The two parties walk the offer
//! through a status-gated state machine; if they disagree, either may open a
//! dispute, three jurors vote, and a strict majority decides who receives the
//! custodied funds. Every status transition, every balance reconciliation and
//! every vote-tally update is specified by a contract and verified.
//!
//! The host ledger itself (persistence, signatures, the actual transfer of
//! funds, the clock and the rent calculator) is an external collaborator:
//! callers hand in the current timestamp and the mandated minimum reserve,
//! and receive back event records describing the fund movements to perform.

pub mod admin;
pub mod disputes;
pub mod errors;
pub mod events;
pub mod laws;
pub mod offers;
pub mod reputation;
pub mod rewards;
pub mod state;
pub mod utils;
