//! A registry of SRCs (content records keyed by KURI), of services and of the
//! scribes allowed to manage them, verified with Verus.
pub mod table;
pub mod types;
pub mod model;
pub mod checks;
pub mod laws;
pub mod pallet;
pub mod call_laws;
