//! A single-round ascending auction ledger. Participants deposit value as
//! bids, a fee on each deposit goes to the owner, the owner settles the round
//! and participants withdraw what they may. Every operation returns the
//! transfers it asks the host to carry out.
pub mod fee;
pub mod table;
pub mod state;
pub mod error;
pub mod msg;
pub mod contract;
