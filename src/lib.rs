//! Host-side runtime logic for WebAssembly plugins: the packed pointer
//! convention of the guest ABI, the names and shapes of the symbols a guest
//! module exchanges with its host, the registry of services and loaded
//! modules, and the protocols that move buffers across the boundary.
pub mod abi;
pub mod bitwise;
pub mod call;
pub mod error;
pub mod plugin;
pub mod registry;
