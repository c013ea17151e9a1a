//! Core of a real-time host: a fixed-step scheduler, the lifecycle of the
//! script hooks it drives, and the registry of host capability modules.

pub mod timestep;
pub mod lifecycle;
pub mod registry;
pub mod script;
