//! Local network diagnostics: port allocation with bounded retries,
//! interface enumeration with filtering and MAC resolution, and a
//! TCP connectivity probe, composed into per-request status snapshots.

pub mod errors;
pub mod ifaces;
pub mod model;
pub mod ports;
pub mod status;
pub mod text;

pub use errors::InterfaceError;
