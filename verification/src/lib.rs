//! Accounting core of a tokenized fund.
//!
//! The library prices fund shares against an externally reported Net Asset
//! Value (NAV), applies basis-point fees, queues redemption requests in a
//! bounded FIFO queue, and computes per-share yield. Every operation is a
//! pure state transition over plain values: moving payment assets, minting
//! or burning the share token, and verifying signatures belong to the host
//! ledger and authorization collaborators, which call into this engine and
//! carry out its decisions.

pub mod errors;
pub mod events;
pub mod fees;
pub mod fund;
pub mod fund_state;
pub mod governance;
pub mod identity;
pub mod nav_oracle;
pub mod pricing;
pub mod redemption_queue;
pub mod yield_distributor;
