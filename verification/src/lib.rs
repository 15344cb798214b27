//! Core of a background input recorder: which keys are held, whether
//! recording is active, which input events become records, and how a record
//! is named and written out.

pub mod capture;
pub mod correlator;
pub mod events;
pub mod keys;
pub mod persist;
pub mod record;
pub mod text;
pub mod toggle;
