//! A minimal legal-services ledger: attorney-client engagement contracts and
//! consultation appointments, kept as keyed records in a key-value store,
//! with a duration-based pricing rule for consultations.

pub mod fees;
pub mod laws;
pub mod records;
pub mod registry;
pub mod store;

pub use fees::calculate_fee;
pub use fees::try_calculate_fee;
