use vstd::prelude::*;

verus! {

/// What the command line asks for.
#[derive(Debug)]
pub struct Args {
    /// The names of the canisters to generate interface files for, one per
    /// argument. `None` asks for every canister of the project; an empty list
    /// asks for none.
    pub canisters_names: Option<Vec<String>>,
}

} // verus!
