//! Host-side logic for a renderer that can be rebuilt and swapped in while the
//! process keeps running: locating the newest build artifact, and the
//! lifecycle that loads, renders, freezes and unloads the component.

pub mod discovery;
pub mod abi;
pub mod host;
pub mod directive;
