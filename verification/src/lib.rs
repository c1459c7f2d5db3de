use vstd::prelude::*;

/// The command line's arguments.
pub mod args_options;
/// The steps of the tool, each as a function from what is known to what to do.
pub mod functions;
/// JSON values as plain data, and their reading from text.
pub mod json;
/// The work on one canister, turn by turn, and the warnings of a selection.
pub mod orchestrator;
/// Joining, climbing and comparing paths given as text.
pub mod paths;
/// Lines for the user.
pub mod report;
/// Texts: comparing, searching and putting together.
pub mod text;
/// The manifest and the registry of canisters that it declares.
pub mod types;

verus! {

/// Where the compiler leaves what it builds for the target, below the project
/// root.
pub const BUILD_OUTPUT_DIR: &'static str = "target/wasm32-unknown-unknown/release";

/// The target that canisters are compiled for.
pub const WASM_TARGET: &'static str = "wasm32-unknown-unknown";

} // verus!
