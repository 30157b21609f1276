//! Drives the Vyper compiler: provisioning of the toolchain, single and batched
//! compilation, extraction of artifacts, and decoding of ERC-5202 blueprint containers.
pub mod blueprint;
pub mod errors;
pub mod json;
pub mod paths;
pub mod process;
pub mod slots;
pub mod venv;
pub mod vyper;
pub mod vypers;
