//! Verified core of the DSYNC job marketplace program.

pub mod accounts;
pub mod bumps;
pub mod cpi;
pub mod dsync_rust;
pub mod error;
pub mod laws;
pub mod pda;
pub mod pubkey;
pub mod state;
