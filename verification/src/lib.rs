//! Provisioning of authorized, fixed-layout buffer accounts.
//!
//! A buffer account lives at an address derived deterministically from the
//! program's identity, an authority's address and a caller-chosen seed. The
//! library validates the calling context, derives and checks the expected
//! address, describes the storage allocation that the system program must
//! perform, and encodes the 9-byte header written at the start of the newly
//! allocated storage.

pub mod error;
pub mod pda;
pub mod processor;
pub mod state;
