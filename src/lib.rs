//! Shared protocol primitives of a cross-chain relayer: chain metadata,
//! contract addresses, event status models, the bootstrap phase order,
//! gas coefficients, signature recovery and relay transaction packaging.
pub mod bootstrap;
pub mod chain;
pub mod contracts;
pub mod relay;
pub mod signature;
pub mod status;
