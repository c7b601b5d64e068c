//! Host-side logic of a WebAssembly modding runtime: the values that cross the
//! host/guest boundary, the state that the host keeps for a running mod, and the
//! text that the host prints on a mod's behalf.
pub mod bindings;
pub mod escape;
pub mod modapi;
pub mod modhandlers;
pub mod rng;
pub mod text;
pub mod transfer;
pub mod result_with_length;
pub mod wasm_interface;
