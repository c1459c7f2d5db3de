use vstd::prelude::*;
use vstd::string::*;
use crate::text::{concat3, concat4, texts};
use crate::types::dfx_cfg::RustCanisterCfg;
use crate::WASM_TARGET;

verus! {

/// The words of the command that builds `package` for the target, optimised:
/// `cargo build --release --target wasm32-unknown-unknown --package <package>`.
pub open spec fn build_words(package: Seq<char>) -> Seq<Seq<char>> {
    seq![
        "cargo"@,
        "build"@,
        "--release"@,
        "--target"@,
        WASM_TARGET@,
        "--package"@,
        package,
    ]
}

/// What is said when `package` has been built.
pub open spec fn built_notice(package: Seq<char>) -> Seq<char> {
    "candid-gen: Canister '"@ + package + "' built successfully."@
}

/// What is said when the build of `package` has failed with `error`.
pub open spec fn build_failure(package: Seq<char>, error: Seq<char>) -> Seq<char> {
    "Failed to build the canister '"@ + package + "': "@ + error
}

/// The command that builds `canister`, word by word.
pub fn build_command(canister: &RustCanisterCfg) -> (r: Vec<String>)
    ensures
        texts(r@) == build_words(canister@.package),
{
    let mut words: Vec<String> = Vec::new();
    words.push(String::from_str("cargo"));
    words.push(String::from_str("build"));
    words.push(String::from_str("--release"));
    words.push(String::from_str("--target"));
    words.push(String::from_str(WASM_TARGET));
    words.push(String::from_str("--package"));
    words.push(canister.package.clone());
    words
}

/// Reads the outcome of the build of `canister`: the notice to give where the
/// compiler ended with success, else the error, which names the canister and
/// holds what the compiler reported. Nothing but the compiler's own verdict
/// counts.
pub fn build_wasm32(canister: &RustCanisterCfg, outcome: &Result<(), String>) -> (r: Result<
    String,
    String,
>)
    ensures
        match r {
            Ok(text) => *outcome is Ok && text@ == built_notice(canister@.package),
            Err(text) => *outcome is Err && text@ == build_failure(
                canister@.package,
                outcome->Err_0@,
            ),
        },
{
    let package = canister.package.as_str();
    match outcome {
        Ok(_) => Ok(concat3("candid-gen: Canister '", package, "' built successfully.")),
        Err(error) => Err(
            concat4("Failed to build the canister '", package, "': ", error.as_str()),
        ),
    }
}

} // verus!
