/// The registry of canisters, by name.
pub mod canisters;
/// The manifest: its canisters, and how it is read from JSON.
pub mod dfx_cfg;
