//! A conversion and governance engine for a three-token market.
//!
//! A holder of two input tokens ("ore" and "coal") may attempt to produce a
//! supply-capped output token ("ingot"): the forward conversion ("smelt")
//! burns coal and succeeds with a configured probability, the reverse
//! conversion ("unsmelt") returns ore minus a fixed-percentage fee, and a
//! threshold multi-signature mechanism can change the market's operating
//! parameters.
//!
//! The engine itself is pure: every operation is a function from the current
//! record and the facts the host supplies (authenticated identities, balances,
//! the clock, a seed byte) to the updated record, the ledger calls to perform,
//! and the event to report. The token ledger that executes those calls, and
//! the host that persists the records, live outside this crate.

pub mod constants;
pub mod error;
pub mod forge;
pub mod governance;
pub mod identity;
pub mod instruction;
pub mod laws;
pub mod ledger;
pub mod processor;
pub mod state;
