use vstd::prelude::*;
use vstd::string::*;
use crate::text::{concat2, contains, is_substring};
use crate::WASM_TARGET;

verus! {

/// One question that is put to the machine before any work starts.
#[derive(Debug, PartialEq, Eq, Clone, Copy)]
pub enum Probe {
    /// Is `rustup` installed?
    Rustup,
    /// Is `cargo` installed?
    Cargo,
    /// Is `candid-extractor` installed?
    CandidExtractor,
    /// Which targets has `rustup` installed?
    InstalledTargets,
}

/// The command line that puts a question.
pub open spec fn command_line_of(probe: Probe) -> Seq<char> {
    match probe {
        Probe::Rustup => "rustup --version"@,
        Probe::Cargo => "cargo --version"@,
        Probe::CandidExtractor => "candid-extractor --version"@,
        Probe::InstalledTargets => "rustup target list --installed"@,
    }
}

/// The command line that puts a question.
pub fn command_line(probe: Probe) -> (r: String)
    ensures
        r@ == command_line_of(probe),
{
    match probe {
        Probe::Rustup => String::from_str("rustup --version"),
        Probe::Cargo => String::from_str("cargo --version"),
        Probe::CandidExtractor => String::from_str("candid-extractor --version"),
        Probe::InstalledTargets => String::from_str("rustup target list --installed"),
    }
}

/// Where the check of the machine stands.
#[derive(Debug)]
pub enum DependencyCheck {
    /// This question is to be put next.
    Run(Probe),
    /// Everything needed is there.
    Passed,
    /// The command of this question failed; what it reported.
    Unavailable { probe: Probe, output: String },
    /// `rustup` has not installed the target that canisters are compiled for.
    TargetMissing,
}

/// The mathematical value of a [`DependencyCheck`].
pub enum DependencyCheckView {
    Run(Probe),
    Passed,
    Unavailable { probe: Probe, output: Seq<char> },
    TargetMissing,
}

impl View for DependencyCheck {
    type V = DependencyCheckView;

    open spec fn view(&self) -> DependencyCheckView {
        match self {
            DependencyCheck::Run(probe) => DependencyCheckView::Run(*probe),
            DependencyCheck::Passed => DependencyCheckView::Passed,
            DependencyCheck::Unavailable { probe, output } => DependencyCheckView::Unavailable {
                probe: *probe,
                output: output@,
            },
            DependencyCheck::TargetMissing => DependencyCheckView::TargetMissing,
        }
    }
}

/// What one command reported: its standard output where it succeeded, else its
/// error.
pub open spec fn outcome_view(outcome: Result<String, String>) -> Result<Seq<char>, Seq<char>> {
    match outcome {
        Ok(text) => Ok(text@),
        Err(text) => Err(text@),
    }
}

/// What the commands reported, in the order of the questions.
pub open spec fn outcomes_view(outcomes: Seq<Result<String, String>>) -> Seq<
    Result<Seq<char>, Seq<char>>,
> {
    Seq::new(outcomes.len(), |i: int| outcome_view(outcomes[i]))
}

/// The question with number `i`, for `i` below 4.
pub open spec fn probe_at(i: int) -> Probe {
    if i == 0 {
        Probe::Rustup
    } else if i == 1 {
        Probe::Cargo
    } else if i == 2 {
        Probe::CandidExtractor
    } else {
        Probe::InstalledTargets
    }
}

/// Where the check stands once the questions from number `from` on are
/// looked at, those before it having succeeded. The first failure ends the
/// check; a question without an answer is the next to put; after the last
/// one, the list of installed targets has to name the target.
pub open spec fn verdict_from(
    outcomes: Seq<Result<Seq<char>, Seq<char>>>,
    from: int,
) -> DependencyCheckView
    decreases 4 - from,
{
    if from >= 4 {
        if is_substring(WASM_TARGET@, outcomes[3]->Ok_0) {
            DependencyCheckView::Passed
        } else {
            DependencyCheckView::TargetMissing
        }
    } else if from >= outcomes.len() {
        DependencyCheckView::Run(probe_at(from))
    } else {
        match outcomes[from] {
            Err(output) => DependencyCheckView::Unavailable { probe: probe_at(from), output },
            Ok(_) => verdict_from(outcomes, from + 1),
        }
    }
}

/// Where the check stands after the answers in `outcomes`.
pub open spec fn verdict(outcomes: Seq<Result<Seq<char>, Seq<char>>>) -> DependencyCheckView {
    verdict_from(outcomes, 0)
}

/// The question with number `i`.
fn probe_number(i: usize) -> (r: Probe)
    requires
        i < 4,
    ensures
        r == probe_at(i as int),
{
    if i == 0 {
        Probe::Rustup
    } else if i == 1 {
        Probe::Cargo
    } else if i == 2 {
        Probe::CandidExtractor
    } else {
        Probe::InstalledTargets
    }
}

/// Says where the check of the machine stands, given what the commands put so
/// far have reported, in the order of the questions: which question to put
/// next, that the check has failed, or that it has passed. The first failure
/// ends the check, so no later question is put. Answers beyond the fourth are
/// not looked at.
pub fn check_dependencies(outcomes: &Vec<Result<String, String>>) -> (r: DependencyCheck)
    ensures
        r@ == verdict(outcomes_view(outcomes@)),
{
    let ghost all = outcomes_view(outcomes@);
    let mut i: usize = 0;
    while i < 4
        invariant
            i <= 4,
            all == outcomes_view(outcomes@),
            verdict(all) == verdict_from(all, i as int),
            forall|k: int| 0 <= k < i ==> k < outcomes.len() && all[k] is Ok,
        decreases 4 - i,
    {
        if i >= outcomes.len() {
            return DependencyCheck::Run(probe_number(i));
        }
        if let Err(output) = &outcomes[i] {
            return DependencyCheck::Unavailable { probe: probe_number(i), output: output.clone() };
        }
        i += 1;
    }
    match &outcomes[3] {
        Ok(targets) => {
            if contains(targets.as_str(), WASM_TARGET) {
                DependencyCheck::Passed
            } else {
                DependencyCheck::TargetMissing
            }
        },
        Err(_) => DependencyCheck::TargetMissing,
    }
}

/// What is said of a check that has failed: which tool is not there, with
/// what its command reported; what the listing of the targets reported; or
/// that the target is not installed. Of a check that has not failed nothing is
/// said.
pub open spec fn failure_text(check: DependencyCheckView) -> Option<Seq<char>> {
    match check {
        DependencyCheckView::Unavailable { probe, output } => Some(
            match probe {
                Probe::Rustup => "rustup command is not available: "@ + output,
                Probe::Cargo => "cargo command is not available: "@ + output,
                Probe::CandidExtractor => "candid-extractor command is not available: "@ + output,
                Probe::InstalledTargets => output,
            },
        ),
        DependencyCheckView::TargetMissing => Some(
            "rustup doesn't have the target wasm32-unknown-unknown installed"@,
        ),
        _ => None,
    }
}

impl DependencyCheck {
    /// What is said of a check that has failed; see [`failure_text`].
    pub fn failure(&self) -> (r: Option<String>)
        ensures
            match r {
                Some(text) => failure_text(self@) == Some(text@),
                None => failure_text(self@) is None,
            },
    {
        match self {
            DependencyCheck::Unavailable { probe, output } => Some(
                match probe {
                    Probe::Rustup => concat2("rustup command is not available: ", output.as_str()),
                    Probe::Cargo => concat2("cargo command is not available: ", output.as_str()),
                    Probe::CandidExtractor => concat2(
                        "candid-extractor command is not available: ",
                        output.as_str(),
                    ),
                    Probe::InstalledTargets => output.clone(),
                },
            ),
            DependencyCheck::TargetMissing => Some(
                String::from_str("rustup doesn't have the target wasm32-unknown-unknown installed"),
            ),
            _ => None,
        }
    }
}

/// The check passes only when all four commands have succeeded and the
/// listing of the installed targets names the target.
pub proof fn lemma_passed_means_all_there(outcomes: Seq<Result<Seq<char>, Seq<char>>>)
    requires
        verdict(outcomes) is Passed,
    ensures
        outcomes.len() >= 4,
        forall|i: int| 0 <= i < 4 ==> outcomes[i] is Ok,
        is_substring(WASM_TARGET@, outcomes[3]->Ok_0),
{
    reveal_with_fuel(verdict_from, 5);
}

/// The first command that fails ends the check: no later answer changes the
/// verdict, and no further question is put.
pub proof fn lemma_first_failure_is_final(
    outcomes: Seq<Result<Seq<char>, Seq<char>>>,
    later: Seq<Result<Seq<char>, Seq<char>>>,
    i: int,
)
    requires
        0 <= i < 4,
        i == outcomes.len() - 1,
        outcomes[i] is Err,
        forall|k: int| 0 <= k < i ==> outcomes[k] is Ok,
    ensures
        verdict(outcomes) == (DependencyCheckView::Unavailable {
            probe: probe_at(i),
            output: outcomes[i]->Err_0,
        }),
        verdict(outcomes + later) == verdict(outcomes),
{
    reveal_with_fuel(verdict_from, 5);
    let all = outcomes + later;
    assert forall|k: int| 0 <= k <= i implies all[k] == outcomes[k] by {}
}

} // verus!
