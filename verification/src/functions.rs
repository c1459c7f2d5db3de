/// The build of one canister: its command, and what its outcome means.
pub mod build_wasm32;
/// The check that the tools and the target are installed.
pub mod check_dependencies;
/// The extraction of one canister's interface, turn by turn.
pub mod gen_candid;
/// The place of a canister's interface file.
pub mod get_candid_path_str;
/// The search for the project root.
pub mod get_project_root;
/// What a finished shell command is taken to have said.
pub mod run_command;
